use vstd::prelude::*;

verus! {

/// Capacity, in bytes, of the request URL buffer.
pub const URL_CAPACITY: usize = 128;

#[verifier::external_type_specification]
#[verifier::external_body]
pub struct ExBoundedString<const N: usize>(heapless::String<N>);

/// The characters held by a URL buffer.
pub uninterp spec fn buffer_text(b: heapless::String<128>) -> Seq<char>;

/// Number of bytes in the UTF-8 encoding of `c`.
pub open spec fn char_len(c: char) -> nat {
    if (c as u32) < 0x80 {
        1
    } else if (c as u32) < 0x800 {
        2
    } else if (c as u32) < 0x10000 {
        3
    } else {
        4
    }
}

/// Number of bytes in the UTF-8 encoding of `s`.
pub open spec fn utf8_len(s: Seq<char>) -> nat
    decreases s.len(),
{
    if s.len() == 0 {
        0
    } else {
        char_len(s[0]) + utf8_len(s.drop_first())
    }
}

/// The decimal digit character for `d` (below ten).
pub open spec fn digit(d: nat) -> char {
    if d == 0 {
        '0'
    } else if d == 1 {
        '1'
    } else if d == 2 {
        '2'
    } else if d == 3 {
        '3'
    } else if d == 4 {
        '4'
    } else if d == 5 {
        '5'
    } else if d == 6 {
        '6'
    } else if d == 7 {
        '7'
    } else if d == 8 {
        '8'
    } else {
        '9'
    }
}

/// Unsigned decimal rendering of `n`, without leading zeros.
pub open spec fn decimal(n: nat) -> Seq<char>
    decreases n,
{
    if n < 10 {
        seq![digit(n)]
    } else {
        decimal(n / 10).push(digit(n % 10))
    }
}

/// The literal token for a sensor status.
pub open spec fn status_token(status: bool) -> Seq<char> {
    if status {
        seq!['t', 'r', 'u', 'e']
    } else {
        seq!['f', 'a', 'l', 's', 'e']
    }
}

/// `http://<base>/api/<id>/<status>`.
pub open spec fn url_text(base: Seq<char>, id: u64, status: bool) -> Seq<char> {
    seq!['h', 't', 't', 'p', ':', '/', '/'] + base + seq!['/', 'a', 'p', 'i', '/'] + decimal(
        id as nat,
    ) + seq!['/'] + status_token(status)
}

/// Whether the URL for these inputs fits in the buffer.
pub open spec fn url_fits(base: Seq<char>, id: u64, status: bool) -> bool {
    utf8_len(url_text(base, id, status)) <= URL_CAPACITY
}

/// The request URL could not be formed: it exceeds the buffer's capacity.
/// The inputs are fixed at build time, so this is a configuration fault.
#[derive(Clone, Copy, Debug, PartialEq, Eq)]
pub enum ConfigurationError {
    UrlTooLong,
}

pub proof fn lemma_utf8_len_concat(a: Seq<char>, b: Seq<char>)
    ensures
        utf8_len(a + b) == utf8_len(a) + utf8_len(b),
    decreases a.len(),
{
    if a.len() > 0 {
        assert((a + b).drop_first() =~= a.drop_first() + b);
        lemma_utf8_len_concat(a.drop_first(), b);
    } else {
        assert(a + b =~= b);
    }
}

proof fn lemma_utf8_len_push(s: Seq<char>, c: char)
    ensures
        utf8_len(s.push(c)) == utf8_len(s) + char_len(c),
{
    assert(s.push(c) =~= s + seq![c]);
    lemma_utf8_len_concat(s, seq![c]);
    assert(seq![c].drop_first() =~= Seq::<char>::empty());
    assert(utf8_len(seq![c]) == char_len(c) + utf8_len(Seq::<char>::empty()));
}

proof fn lemma_decimal_len(n: nat)
    ensures
        utf8_len(decimal(n)) == decimal(n).len(),
        decimal(n).len() >= 1,
    decreases n,
{
    if n < 10 {
        lemma_utf8_len_push(Seq::<char>::empty(), digit(n));
        assert(Seq::<char>::empty().push(digit(n)) =~= seq![digit(n)]);
    } else {
        lemma_decimal_len(n / 10);
        lemma_utf8_len_push(decimal(n / 10), digit(n % 10));
    }
}

/// Relies on heapless::String::new: the new string is empty.
#[verifier::external_body]
fn empty_buffer() -> (r: heapless::String<128>)
    ensures
        buffer_text(r) == Seq::<char>::empty(),
{
    heapless::String::new()
}

/// Relies on heapless::String::push_str: the text is appended whole when its
/// UTF-8 bytes fit in the remaining capacity; otherwise nothing changes and
/// an error is returned.
#[verifier::external_body]
fn push_text(buf: &mut heapless::String<128>, text: &str) -> (r: Result<(), ()>)
    ensures
        r is Ok <==> utf8_len(buffer_text(*old(buf))) + utf8_len(text@) <= 128,
        r is Ok ==> buffer_text(*final(buf)) == buffer_text(*old(buf)) + text@,
        r is Err ==> buffer_text(*final(buf)) == buffer_text(*old(buf)),
{
    buf.push_str(text)
}

/// Relies on heapless::String::push: the character is appended when its
/// UTF-8 encoding fits in the remaining capacity; otherwise nothing changes
/// and an error is returned.
#[verifier::external_body]
fn push_char(buf: &mut heapless::String<128>, c: char) -> (r: Result<(), ()>)
    ensures
        r is Ok <==> utf8_len(buffer_text(*old(buf))) + char_len(c) <= 128,
        r is Ok ==> buffer_text(*final(buf)) == buffer_text(*old(buf)).push(c),
        r is Err ==> buffer_text(*final(buf)) == buffer_text(*old(buf)),
{
    buf.push(c)
}

fn digit_char(d: u64) -> (c: char)
    requires
        d < 10,
    ensures
        c == digit(d as nat),
{
    if d == 0 {
        '0'
    } else if d == 1 {
        '1'
    } else if d == 2 {
        '2'
    } else if d == 3 {
        '3'
    } else if d == 4 {
        '4'
    } else if d == 5 {
        '5'
    } else if d == 6 {
        '6'
    } else if d == 7 {
        '7'
    } else if d == 8 {
        '8'
    } else {
        '9'
    }
}

/// Appends the decimal rendering of `n`; fails when it does not fit.
fn push_decimal(buf: &mut heapless::String<128>, n: u64) -> (r: Result<(), ()>)
    ensures
        r is Ok <==> utf8_len(buffer_text(*old(buf))) + utf8_len(decimal(n as nat)) <= 128,
        r is Ok ==> buffer_text(*final(buf)) == buffer_text(*old(buf)) + decimal(n as nat),
    decreases n,
{
    proof {
        lemma_decimal_len(n as nat);
    }
    if n >= 10 {
        let r = push_decimal(buf, n / 10);
        proof {
            lemma_decimal_len((n / 10) as nat);
            lemma_utf8_len_push(decimal((n / 10) as nat), digit((n % 10) as nat));
            lemma_utf8_len_concat(buffer_text(*old(buf)), decimal((n / 10) as nat));
        }
        if r.is_err() {
            return r;
        }
    }
    let ghost before = buffer_text(*buf);
    let r = push_char(buf, digit_char(n % 10));
    proof {
        if n >= 10 {
            assert(buffer_text(*old(buf)) + decimal(n as nat) =~= before.push(digit((n % 10) as nat)));
        } else {
            assert(decimal(n as nat) =~= seq![digit(n as nat)]);
            assert(buffer_text(*old(buf)) + decimal(n as nat) =~= before.push(digit((n % 10) as nat)));
        }
    }
    r
}

/// Formats `http://<base_url>/api/<id>/<status>` into a 128-byte buffer.
/// The result is all or nothing: when the text does not fit, no buffer is
/// handed out and the configuration fault is reported instead.
pub fn build_url(base_url: &str, id: u64, status: bool) -> (r: Result<
    heapless::String<128>,
    ConfigurationError,
>)
    ensures
        r is Ok <==> url_fits(base_url@, id, status),
        r matches Ok(url) ==> buffer_text(url) == url_text(base_url@, id, status),
        r matches Err(e) ==> e == ConfigurationError::UrlTooLong,
{
    let scheme: &str = "http://";
    let api: &str = "/api/";
    let sep: &str = "/";
    let token: &str = if status {
        "true"
    } else {
        "false"
    };
    let ghost decimal_id = decimal(id as nat);
    proof {
        reveal_strlit("http://");
        reveal_strlit("/api/");
        reveal_strlit("/");
        reveal_strlit("true");
        reveal_strlit("false");
        reveal_with_fuel(utf8_len, 8);
        assert(scheme@ == seq!['h', 't', 't', 'p', ':', '/', '/']);
        assert(api@ == seq!['/', 'a', 'p', 'i', '/']);
        assert(sep@ == seq!['/']);
        assert(token@ == status_token(status));
        assert(utf8_len(scheme@) == 7);
        assert(utf8_len(api@) == 5);
        assert(utf8_len(sep@) == 1);
        assert(utf8_len(token@) == if status { 4nat } else { 5nat });
        let a = scheme@;
        let b = a + base_url@;
        let c = b + api@;
        let d = c + decimal_id;
        let e = d + sep@;
        lemma_utf8_len_concat(a, base_url@);
        lemma_utf8_len_concat(b, api@);
        lemma_utf8_len_concat(c, decimal_id);
        lemma_utf8_len_concat(d, sep@);
        lemma_utf8_len_concat(e, token@);
        lemma_decimal_len(id as nat);
        assert(url_text(base_url@, id, status) == e + token@);
    }
    let mut url = empty_buffer();
    if push_text(&mut url, scheme).is_err() {
        return Err(ConfigurationError::UrlTooLong);
    }
    if push_text(&mut url, base_url).is_err() {
        return Err(ConfigurationError::UrlTooLong);
    }
    if push_text(&mut url, api).is_err() {
        return Err(ConfigurationError::UrlTooLong);
    }
    if push_decimal(&mut url, id).is_err() {
        return Err(ConfigurationError::UrlTooLong);
    }
    if push_text(&mut url, sep).is_err() {
        return Err(ConfigurationError::UrlTooLong);
    }
    if push_text(&mut url, token).is_err() {
        return Err(ConfigurationError::UrlTooLong);
    }
    proof {
        assert(Seq::<char>::empty() + scheme@ =~= scheme@);
    }
    Ok(url)
}

} // verus!
