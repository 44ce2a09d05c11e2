use vstd::prelude::*;
use vstd::string::*;
use crate::types::{strings_view, copy_list};

verus! {

/// The heading that opens the resolver section of the query tool's output.
pub const MARKER: &'static str = "DNS configuration (for scoped queries)";

/// One indexed nameserver entry; its first group is the dotted-quad address.
pub const NAMESERVER_PATTERN: &'static str = r"nameserver\[\d+\] : (\d{1,3}\.\d{1,3}\.\d{1,3}\.\d{1,3})";

/// The leading arguments of the apply tool: the operation and the service.
pub const SET_DNS_FLAG: &'static str = "-setdnsservers";

pub const SERVICE_NAME: &'static str = "Wi-Fi";

/// The token that restores automatic (DHCP-provided) resolution.
pub const EMPTY_SENTINEL: &'static str = "Empty";

/// Why the active DNS servers could not be read.
#[derive(Debug)]
pub enum QueryError {
    /// The query tool exited unsuccessfully; holds its standard error text.
    CommandFailed(String),
    /// The output holds no resolver section.
    MissingConfiguration,
    /// The nameserver pattern was refused by the regular expression engine.
    PatternRejected,
}

/// Why a DNS server list could not be applied.
#[derive(Debug)]
pub enum ApplyError {
    /// The apply tool exited unsuccessfully; holds its standard error text.
    CommandFailed(String),
}

/// What the regex crate yields for `pattern` on `text`: the first group of
/// each successive match, or nothing where the pattern does not compile or
/// the first group takes no part in some match.
pub uninterp spec fn first_groups(pattern: Seq<char>, text: Seq<char>) -> Option<Seq<Seq<char>>>;

/// Relies on regex::Regex::new to compile `pattern` and on
/// Regex::captures_iter for the successive non-overlapping matches in `text`,
/// taking group 1 of each.
#[verifier::external_body]
fn capture_first_groups(pattern: &str, text: &str) -> (r: Option<Vec<String>>)
    ensures
        match r {
            Some(v) => first_groups(pattern@, text@) == Some(strings_view(v@)),
            None => first_groups(pattern@, text@) is None,
        },
{
    regex::Regex::new(pattern).ok().and_then(
        |re| re.captures_iter(text).map(|c| c.get(1).map(|m| m.as_str().to_string())).collect(),
    )
}

/// `pat` occurs in `s` starting at position `i`.
pub open spec fn occurs_at(s: Seq<char>, pat: Seq<char>, i: int) -> bool {
    0 <= i && i + pat.len() <= s.len() && s.subrange(i, i + pat.len()) == pat
}

/// `i` is the first position at which `pat` occurs in `s`.
pub open spec fn first_occurrence(s: Seq<char>, pat: Seq<char>, i: int) -> bool {
    occurs_at(s, pat, i) && forall|j: int| 0 <= j < i ==> !occurs_at(s, pat, j)
}

/// The text after the first occurrence of the marker, if there is one.
pub open spec fn dns_section(output: Seq<char>) -> Option<Seq<char>> {
    if exists|i: int| occurs_at(output, MARKER@, i) {
        let i = choose|i: int| first_occurrence(output, MARKER@, i);
        Some(output.subrange(i + MARKER@.len(), output.len() as int))
    } else {
        None
    }
}

fn chars_of(s: &str) -> (r: Vec<char>)
    ensures
        r@ == s@,
{
    let n = s.unicode_len();
    let mut r: Vec<char> = Vec::new();
    let mut i: usize = 0;
    while i < n
        invariant
            n == s@.len(),
            0 <= i <= n,
            r@ == s@.subrange(0, i as int),
        decreases n - i,
    {
        r.push(s.get_char(i));
        i = i + 1;
    }
    assert(r@ =~= s@);
    r
}

fn matches_at(hay: &Vec<char>, pat: &Vec<char>, i: usize) -> (r: bool)
    requires
        i + pat@.len() <= hay@.len(),
    ensures
        r == occurs_at(hay@, pat@, i as int),
{
    let mut k: usize = 0;
    while k < pat.len()
        invariant
            i + pat@.len() <= hay@.len(),
            hay@.len() == hay.len(),
            0 <= k <= pat@.len(),
            forall|j: int| 0 <= j < k ==> hay@[i + j] == pat@[j],
        decreases pat@.len() - k,
    {
        if hay[i + k] != pat[k] {
            assert(hay@.subrange(i as int, i + pat@.len())[k as int] != pat@[k as int]);
            return false;
        }
        k = k + 1;
    }
    assert(hay@.subrange(i as int, i + pat@.len()) =~= pat@);
    true
}

/// The part of the query tool's output that follows the resolver-section
/// marker, or `None` where the marker is absent.
pub fn extract_dns_configuration(output: &str) -> (r: Option<String>)
    ensures
        match r {
            Some(s) => dns_section(output@) == Some(s@),
            None => dns_section(output@) is None,
        },
{
    let hay = chars_of(output);
    let pat = chars_of(MARKER);
    proof {
        reveal_strlit("DNS configuration (for scoped queries)");
    }
    let n = hay.len();
    let m = pat.len();
    if m > n {
        assert forall|i: int| !occurs_at(output@, MARKER@, i) by {}
        return None;
    }
    let mut i: usize = 0;
    while i <= n - m
        invariant
            hay@ == output@,
            pat@ == MARKER@,
            n == hay@.len(),
            m == pat@.len(),
            0 < m <= n,
            0 <= i <= n - m + 1,
            forall|j: int| 0 <= j < i ==> !occurs_at(output@, MARKER@, j),
        decreases n - m + 1 - i,
    {
        if matches_at(&hay, &pat, i) {
            assert(first_occurrence(output@, MARKER@, i as int));
            proof {
                let c = choose|c: int| first_occurrence(output@, MARKER@, c);
                assert(c == i) by {
                    if c < i {
                    } else if c > i {
                    }
                }
            }
            let rest = output.substring_char(i + m, n);
            return Some(String::from_str(rest));
        }
        i = i + 1;
    }
    assert forall|j: int| !occurs_at(output@, MARKER@, j) by {
        if 0 <= j < i {
        }
    }
    None
}

/// The active nameserver addresses listed in the query tool's output.
pub fn parse_dns_output(output: &str) -> (r: Result<Vec<String>, QueryError>)
    ensures
        dns_section(output@) is None <==> r matches Err(QueryError::MissingConfiguration),
        dns_section(output@) is Some ==> match first_groups(
            NAMESERVER_PATTERN@,
            dns_section(output@)->0,
        ) {
            Some(g) => r is Ok && strings_view(r->Ok_0@) == g,
            None => r matches Err(QueryError::PatternRejected),
        },
{
    match extract_dns_configuration(output) {
        None => Err(QueryError::MissingConfiguration),
        Some(section) => match capture_first_groups(NAMESERVER_PATTERN, section.as_str()) {
            Some(v) => Ok(v),
            None => Err(QueryError::PatternRejected),
        },
    }
}

/// The result of a query run: the tool's exit status decides first, then
/// its standard output is parsed.
pub fn dns_from_command_output(success: bool, stdout: &str, stderr: &str) -> (r: Result<
    Vec<String>,
    QueryError,
>)
    ensures
        !success ==> (r matches Err(QueryError::CommandFailed(e)) && e@ == stderr@),
        success ==> (dns_section(stdout@) is None <==> r matches Err(
            QueryError::MissingConfiguration,
        )),
        success && dns_section(stdout@) is Some ==> match first_groups(
            NAMESERVER_PATTERN@,
            dns_section(stdout@)->0,
        ) {
            Some(g) => r is Ok && strings_view(r->Ok_0@) == g,
            None => r matches Err(QueryError::PatternRejected),
        },
{
    if !success {
        return Err(QueryError::CommandFailed(String::from_str(stderr)));
    }
    parse_dns_output(stdout)
}

/// The arguments that set `servers` on the service: the flag, the service
/// name, then either the servers in order or the automatic sentinel alone.
pub open spec fn apply_arguments(servers: Seq<Seq<char>>) -> Seq<Seq<char>> {
    seq![SET_DNS_FLAG@, SERVICE_NAME@] + if servers.len() == 0 {
        seq![EMPTY_SENTINEL@]
    } else {
        servers
    }
}

/// The argument list for the apply tool that sets `servers`.
pub fn dns_command_arguments(servers: &Vec<String>) -> (r: Vec<String>)
    ensures
        strings_view(r@) == apply_arguments(strings_view(servers@)),
        servers@.len() == 0 ==> r@.len() == 3 && r@[2]@ == EMPTY_SENTINEL@,
{
    let mut r: Vec<String> = Vec::new();
    r.push(String::from_str(SET_DNS_FLAG));
    r.push(String::from_str(SERVICE_NAME));
    if servers.len() == 0 {
        r.push(String::from_str(EMPTY_SENTINEL));
        assert(strings_view(r@) =~= apply_arguments(strings_view(servers@)));
        return r;
    }
    let mut list = copy_list(servers);
    r.append(&mut list);
    assert(strings_view(r@) =~= apply_arguments(strings_view(servers@)));
    r
}

/// The result of an apply run, decided by the tool's exit status.
pub fn apply_outcome(success: bool, stderr: &str) -> (r: Result<(), ApplyError>)
    ensures
        success <==> r is Ok,
        !success ==> (r matches Err(ApplyError::CommandFailed(e)) && e@ == stderr@),
{
    if success {
        Ok(())
    } else {
        Err(ApplyError::CommandFailed(String::from_str(stderr)))
    }
}

} // verus!
