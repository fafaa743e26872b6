use vstd::prelude::*;
use crate::config::{ConfigView, TrowConfig};
use crate::policy::strs;

verus! {

/// The character of a decimal digit.
pub open spec fn digit_char(d: nat) -> char {
    seq!['0', '1', '2', '3', '4', '5', '6', '7', '8', '9'][d as int]
}

/// The decimal numeral of `n`, without leading zeros.
pub open spec fn decimal(n: nat) -> Seq<char>
    decreases n,
{
    if n < 10 {
        seq![digit_char(n)]
    } else {
        decimal(n / 10).push(digit_char(n % 10))
    }
}

/// The `Debug` rendering of a list of strings.
pub uninterp spec fn debug_list_of(items: Seq<Seq<char>>) -> Seq<char>;

/// Relies on the `Display` impl of `u16`: the decimal numeral of `n`.
#[verifier::external_body]
fn decimal_text(n: u16) -> (r: String)
    ensures
        r@ == decimal(n as nat),
{
    n.to_string()
}

/// Relies on the `Debug` impl of `Vec<String>`; the result depends on the
/// strings alone.
#[verifier::external_body]
fn debug_list(items: &Vec<String>) -> (r: String)
    ensures
        r@ == debug_list_of(strs(items@)),
{
    format!("{:?}", items)
}

/// The startup summary: bind address, host names, then the admission
/// policy's four lists.
pub open spec fn banner_lines(c: ConfigView) -> Seq<Seq<char>> {
    seq![
        "Starting trow on "@ + c.addr.host + ":"@ + decimal(c.addr.port as nat),
        "These host names will considered local for any Kubernetes validation callbacks: "@
            + debug_list_of(c.host_names),
        "Validation callback configuration:"@,
        "  By default all remote images are denied,"@,
        "  and all local images present in the repository are allowed"@,
        "  Prefixes explicitly allowed: "@ + debug_list_of(c.policy.allow_prefixes),
        "  Image names explicitly allowed: "@ + debug_list_of(c.policy.allow_images),
        "  Local prefixes explicitly denied: "@ + debug_list_of(c.policy.deny_prefixes),
        "  Local images explicitly denied: "@ + debug_list_of(c.policy.deny_images),
    ]
}

fn joined(head: &str, tail: &String) -> (r: String)
    ensures
        r@ == head@ + tail@,
{
    let mut s = head.to_owned();
    s.append(tail.as_str());
    s
}

/// The lines of the startup summary for `config`.
pub fn banner(config: &TrowConfig) -> (r: Vec<String>)
    ensures
        strs(r@) == banner_lines(config@),
{
    let addr = config.addr();
    let policy = config.policy();
    let mut first = joined("Starting trow on ", &addr.host);
    first.append(":");
    first.append(decimal_text(addr.port).as_str());
    let mut lines: Vec<String> = Vec::new();
    lines.push(first);
    lines.push(
        joined(
            "These host names will considered local for any Kubernetes validation callbacks: ",
            &debug_list(config.host_names()),
        ),
    );
    lines.push("Validation callback configuration:".to_owned());
    lines.push("  By default all remote images are denied,".to_owned());
    lines.push("  and all local images present in the repository are allowed".to_owned());
    lines.push(joined("  Prefixes explicitly allowed: ", &debug_list(policy.allow_prefixes())));
    lines.push(joined("  Image names explicitly allowed: ", &debug_list(policy.allow_images())));
    lines.push(joined("  Local prefixes explicitly denied: ", &debug_list(policy.deny_prefixes())));
    lines.push(joined("  Local images explicitly denied: ", &debug_list(policy.deny_images())));
    assert(strs(lines@) =~= banner_lines(config@));
    lines
}

} // verus!
