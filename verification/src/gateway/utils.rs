use std::collections::HashSet;
use vstd::prelude::*;
use vstd::string::*;

use crate::gateway::constants::{
    non_reconnectable_close_codes, non_reconnectable_codes, non_resumable_close_codes,
    non_resumable_codes,
};
use crate::gateway::state::{GatewayState, GatewayStateView, ReconnectStrategy};
use crate::text::{
    chars_contain, chars_end_with, chars_eq, chars_of, chars_start_with, lower, lower_chars,
    parse_u8, parse_u8_chars, split, split_chars, starts_with, ends_with, views, lemma_split_len,
};

verus! {

broadcast use vstd::std_specs::hash::group_hash_axioms;

/// How many sessions may still be started, as the gateway endpoint reports it.
#[derive(Clone, Copy, Debug)]
pub struct SessionStartLimit {
    pub total: u32,
    pub remaining: u32,
    pub reset_after: u64,
    pub max_concurrency: u32,
}

/// The answer of `GET /gateway/bot`.
#[derive(Debug)]
pub struct GatewayBotResponse {
    pub url: String,
    pub shards: u32,
    pub session_start_limit: SessionStartLimit,
}

/// Where to connect and how many sessions may start.
#[derive(Debug)]
pub struct GatewayInfo {
    pub url: String,
    pub session_start_limit: SessionStartLimit,
}

/// Why the gateway endpoint could not be used.
#[derive(Debug)]
pub enum GatewayError {
    /// The API answered with an error: message, whether to retry, status.
    Api(String, bool, u16),
    /// The request could not be made or its answer not read.
    Network(String),
}

/// What a close code means for the next connection.
#[derive(Clone, Copy, Debug, PartialEq, Eq, Structural)]
pub struct CodeCloseClassification {
    pub should_reconnect: bool,
    pub can_resume: bool,
}

/// What to do after the socket closed.
#[derive(Debug)]
pub enum CloseAction {
    Stop(u16, String),
    Reconnect(CodeCloseClassification),
}

/// How a scheduled reconnect changes the state.
#[derive(Debug)]
pub struct ReconnectOptions {
    pub strategy: Option<ReconnectStrategy>,
    pub clear_session: bool,
    pub reason: Option<String>,
}

/// A failed connection attempt, and whether another attempt is scheduled.
#[derive(Debug)]
pub struct ConnectError {
    pub error: String,
    pub retry_scheduled: bool,
}

/// A socket that could not be opened, and whether that is worth a retry.
#[derive(Debug)]
pub struct OpenWebSocketError {
    pub error: String,
    pub retryable: bool,
}

impl From<String> for ConnectError {
    fn from(value: String) -> (r: Self) {
        ConnectError { error: value, retry_scheduled: false }
    }
}

impl vstd::std_specs::convert::FromSpecImpl<String> for ConnectError {
    open spec fn obeys_from_spec() -> bool {
        true
    }

    open spec fn from_spec(v: String) -> Self {
        ConnectError { error: v, retry_scheduled: false }
    }
}

/// Whether a session can be resumed: the strategy allows it and a session
/// with a sequence number is known.
pub open spec fn resumable(state: GatewayStateView) -> bool {
    state.reconnect_strategy != ReconnectStrategy::IdentifyOnly && state.session_id is Some
        && state.sequence is Some
}

pub fn can_resume(state: &GatewayState) -> (r: bool)
    ensures
        r == resumable(state@),
{
    state.reconnect_strategy != ReconnectStrategy::IdentifyOnly && state.session_id.is_some()
        && state.sequence.is_some()
}

/// What a close code means: codes of the first list end reconnecting, codes
/// of the second end the session.
pub open spec fn close_policy(code: u16) -> CodeCloseClassification {
    let should_reconnect = !non_reconnectable_codes().contains(code);
    CodeCloseClassification {
        should_reconnect,
        can_resume: should_reconnect && !non_resumable_codes().contains(code),
    }
}

pub fn classify_close_code(code: u16) -> (r: CodeCloseClassification)
    ensures
        r == close_policy(code),
{
    let should_reconnect = !non_reconnectable_close_codes().contains(&code);
    let can_resume = should_reconnect && !non_resumable_close_codes().contains(&code);
    CodeCloseClassification { should_reconnect, can_resume }
}

/// Whether a text is a private IPv4 address: four dot-separated bytes in
/// 0/8, 10/8, 127/8, 169.254/16, 172.16/12 or 192.168/16.
pub open spec fn private_ipv4(host: Seq<char>) -> bool {
    let parts = split(host, '.');
    &&& parts.len() == 4
    &&& forall|i: int| 0 <= i < 4 ==> parse_u8(#[trigger] parts[i]) is Some
    &&& {
        let a = parse_u8(parts[0]).unwrap();
        let b = parse_u8(parts[1]).unwrap();
        ||| a == 10
        ||| a == 127
        ||| a == 0
        ||| (a == 169 && b == 254)
        ||| (a == 172 && 16 <= b <= 31)
        ||| (a == 192 && b == 168)
    }
}

/// Whether a text is a private or local IPv6 address, or ends in a private
/// IPv4 address after its last colon.
pub open spec fn private_ipv6(host: Seq<char>) -> bool {
    let l = lower(host);
    ||| (host.contains('.') && private_ipv4(split(host, ':').last()))
    ||| l == seq![':', ':', '1']
    ||| l == seq![':', ':']
    ||| starts_with(l, seq!['f', 'c'])
    ||| starts_with(l, seq!['f', 'd'])
    ||| starts_with(l, seq!['f', 'e', '8'])
    ||| starts_with(l, seq!['f', 'e', '9'])
    ||| starts_with(l, seq!['f', 'e', 'a'])
    ||| starts_with(l, seq!['f', 'e', 'b'])
}

pub open spec fn localhost_name() -> Seq<char> {
    seq!['l', 'o', 'c', 'a', 'l', 'h', 'o', 's', 't']
}

/// Whether a host name is not publicly routable: `localhost`, a name under
/// `.localhost` or `.local`, or a private address; letters are compared
/// without regard to case.
pub open spec fn private_hostname(host: Seq<char>) -> bool {
    let l = lower(host);
    ||| l == localhost_name()
    ||| ends_with(l, seq!['.'] + localhost_name())
    ||| ends_with(l, seq!['.', 'l', 'o', 'c', 'a', 'l'])
    ||| private_ipv4(l)
    ||| private_ipv6(l)
}

fn private_ipv4_chars(host: &[char]) -> (r: bool)
    ensures
        r == private_ipv4(host@),
{
    let parts = split_chars(host, '.');
    if parts.len() != 4 {
        return false;
    }
    assert(views(parts@).len() == 4);
    let mut nums: Vec<u8> = Vec::new();
    let mut i: usize = 0;
    while i < 4
        invariant
            parts@.len() == 4,
            views(parts@) == split(host@, '.'),
            i <= 4,
            nums@.len() == i,
            forall|j: int| 0 <= j < i ==> parse_u8(#[trigger] split(host@, '.')[j]) == Some(nums@[j]),
        decreases 4 - i,
    {
        assert(views(parts@)[i as int] == parts@[i as int]@);
        match parse_u8_chars(parts[i].as_slice()) {
            Some(n) => nums.push(n),
            None => {
                assert(parse_u8(split(host@, '.')[i as int]) is None);
                return false;
            },
        }
        i = i + 1;
    }
    let a = nums[0];
    let b = nums[1];
    assert(parse_u8(split(host@, '.')[0]) == Some(a));
    assert(parse_u8(split(host@, '.')[1]) == Some(b));
    a == 10 || a == 127 || a == 0 || (a == 169 && b == 254) || (a == 172 && 16 <= b && b <= 31)
        || (a == 192 && b == 168)
}

/// Whether a host is a private IPv4 address.
pub fn is_private_ipv4(host: &str) -> (r: bool)
    ensures
        r == private_ipv4(host@),
{
    let chars = chars_of(host);
    private_ipv4_chars(chars.as_slice())
}

fn private_ipv6_chars(host: &[char]) -> (r: bool)
    ensures
        r == private_ipv6(host@),
{
    let mut v4 = false;
    if chars_contain(host, '.') {
        let parts = split_chars(host, ':');
        assert(views(parts@).len() == parts@.len());
        proof {
            lemma_split_len(host@, ':');
        }
        let last = parts.len() - 1;
        assert(views(parts@)[last as int] == parts@[last as int]@);
        if private_ipv4_chars(parts[last].as_slice()) {
            v4 = true;
        }
    }
    if v4 {
        return true;
    }
    let l = lower_chars(host);
    let a1 = [':', ':', '1'];
    let a2 = [':', ':'];
    let fc = ['f', 'c'];
    let fd = ['f', 'd'];
    let fe8 = ['f', 'e', '8'];
    let fe9 = ['f', 'e', '9'];
    let fea = ['f', 'e', 'a'];
    let feb = ['f', 'e', 'b'];
    assert(a1@ =~= seq![':', ':', '1']);
    assert(a2@ =~= seq![':', ':']);
    assert(fc@ =~= seq!['f', 'c']);
    assert(fd@ =~= seq!['f', 'd']);
    assert(fe8@ =~= seq!['f', 'e', '8']);
    assert(fe9@ =~= seq!['f', 'e', '9']);
    assert(fea@ =~= seq!['f', 'e', 'a']);
    assert(feb@ =~= seq!['f', 'e', 'b']);
    let ls = l.as_slice();
    chars_eq(ls, &a1) || chars_eq(ls, &a2) || chars_start_with(ls, &fc) || chars_start_with(ls, &fd)
        || chars_start_with(ls, &fe8) || chars_start_with(ls, &fe9) || chars_start_with(ls, &fea)
        || chars_start_with(ls, &feb)
}

/// Whether a host is a private or local IPv6 address.
pub fn is_private_ipv6(host: &str) -> (r: bool)
    ensures
        r == private_ipv6(host@),
{
    let chars = chars_of(host);
    private_ipv6_chars(chars.as_slice())
}

/// Whether a host name is not publicly routable.
pub fn is_private_hostname(hostname: &str) -> (r: bool)
    ensures
        r == private_hostname(hostname@),
{
    let chars = chars_of(hostname);
    let l = lower_chars(chars.as_slice());
    let local = ['l', 'o', 'c', 'a', 'l', 'h', 'o', 's', 't'];
    let dot_localhost = ['.', 'l', 'o', 'c', 'a', 'l', 'h', 'o', 's', 't'];
    let dot_local = ['.', 'l', 'o', 'c', 'a', 'l'];
    assert(local@ =~= localhost_name());
    assert(dot_localhost@ =~= seq!['.'] + localhost_name());
    assert(dot_local@ =~= seq!['.', 'l', 'o', 'c', 'a', 'l']);
    let ls = l.as_slice();
    if chars_eq(ls, &local) || chars_end_with(ls, &dot_localhost) || chars_end_with(ls, &dot_local) {
        return true;
    }
    private_ipv4_chars(ls) || private_ipv6_chars(ls)
}

/// The HTTP form of a socket URL: `wss://` becomes `https://` and `ws://`
/// becomes `http://`; other URLs stay as they are.
pub open spec fn http_url(url: Seq<char>) -> Seq<char> {
    let wss = seq!['w', 's', 's', ':', '/', '/'];
    let ws = seq!['w', 's', ':', '/', '/'];
    if starts_with(url, wss) {
        seq!['h', 't', 't', 'p', 's', ':', '/', '/'] + url.skip(6)
    } else if starts_with(url, ws) {
        seq!['h', 't', 't', 'p', ':', '/', '/'] + url.skip(5)
    } else {
        url
    }
}

pub fn to_http_url(url: &str) -> (r: String)
    ensures
        r@ == http_url(url@),
{
    let chars = chars_of(url);
    let wss = ['w', 's', 's', ':', '/', '/'];
    let ws = ['w', 's', ':', '/', '/'];
    assert(wss@ =~= seq!['w', 's', 's', ':', '/', '/']);
    assert(ws@ =~= seq!['w', 's', ':', '/', '/']);
    let n = chars.len();
    if chars_start_with(chars.as_slice(), &wss) {
        let rest = url.substring_char(6, n);
        let head = String::from_str("https://");
        proof {
            reveal_strlit("https://");
        }
        let r = head.concat(rest);
        assert(r@ =~= http_url(url@));
        r
    } else if chars_start_with(chars.as_slice(), &ws) {
        let rest = url.substring_char(5, n);
        let head = String::from_str("http://");
        proof {
            reveal_strlit("http://");
        }
        let r = head.concat(rest);
        assert(r@ =~= http_url(url@));
        r
    } else {
        String::from_str(url)
    }
}

} // verus!
