//! What the diagnostic report says of each check and of the API key. Running
//! the checks and printing the report is the program's own work.
use vstd::prelude::*;

use crate::text::{append_str, chars_of, decimal, push_decimal, str_eq, string_of, trim, trim_str};

verus! {

pub open spec fn opt_str_view(value: Option<&str>) -> Option<Seq<char>> {
    match value {
        Some(s) => Some(s@),
        None => None,
    }
}

/// Whether an API key counts as configured: present, not blank and not the
/// placeholder.
pub open spec fn secret_configured(value: Option<Seq<char>>) -> bool {
    match value {
        Some(s) => trim(s).len() > 0 && s != "replace-with-your-api-key"@,
        None => false,
    }
}

/// How the report shows the API key: never the key itself.
pub fn format_configured_secret(value: Option<&str>) -> (r: &'static str)
    ensures
        r@ == (if secret_configured(opt_str_view(value)) {
            "Configured (redacted)"@
        } else {
            "(not set)"@
        }),
{
    match value {
        None => "(not set)",
        Some(v) => {
            let t = trim_str(v);
            if t.len() == 0 || str_eq(v, "replace-with-your-api-key") {
                "(not set)"
            } else {
                "Configured (redacted)"
            }
        },
    }
}

/// One line of the report.
pub struct CheckResult {
    pub name: String,
    pub success: bool,
    pub status: Option<u16>,
    pub detail: String,
}

/// The lines that the report prints for a check: `PASS` or `FAIL` padded
/// to five columns and a space, the name, the HTTP status in brackets where
/// there is one; then, for a failed check with a detail, the detail indented
/// by six spaces.
pub open spec fn check_lines_spec(
    name: Seq<char>,
    success: bool,
    status: Option<u16>,
    detail: Seq<char>,
) -> Seq<Seq<char>> {
    let head = (if success { "PASS  "@ } else { "FAIL  "@ }) + name + match status {
        Some(code) => " ["@ + decimal(code as nat) + "]"@,
        None => Seq::<char>::empty(),
    };
    if !success && detail.len() > 0 {
        seq![head, "      "@ + detail]
    } else {
        seq![head]
    }
}

pub fn check_lines(result: &CheckResult) -> (r: Vec<String>)
    ensures
        r@.map_values(|s: String| s@) == check_lines_spec(
            result.name@,
            result.success,
            result.status,
            result.detail@,
        ),
{
    let mut head: Vec<char> = Vec::new();
    if result.success {
        append_str(&mut head, "PASS  ");
    } else {
        append_str(&mut head, "FAIL  ");
    }
    append_str(&mut head, result.name.as_str());
    match result.status {
        Some(code) => {
            append_str(&mut head, " [");
            push_decimal(&mut head, code as u64);
            append_str(&mut head, "]");
        },
        None => {},
    }
    let ghost h = (if result.success { "PASS  "@ } else { "FAIL  "@ }) + result.name@ + match result.status {
        Some(code) => " ["@ + decimal(code as nat) + "]"@,
        None => Seq::<char>::empty(),
    };
    assert(head@ =~= h);
    let mut lines: Vec<String> = Vec::new();
    lines.push(string_of(&head));
    let detail = chars_of(result.detail.as_str());
    if !result.success && detail.len() > 0 {
        let mut d: Vec<char> = Vec::new();
        append_str(&mut d, "      ");
        append_str(&mut d, result.detail.as_str());
        lines.push(string_of(&d));
    }
    assert(lines@.map_values(|s: String| s@) =~= check_lines_spec(
        result.name@,
        result.success,
        result.status,
        result.detail@,
    ));
    lines
}

} // verus!
