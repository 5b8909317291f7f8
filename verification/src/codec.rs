//! Framing of the Stream API wire protocol: every message is one JSON text
//! followed by a line break (`\r\n` when sent, `\n` or `\r\n` when read).
use vstd::prelude::*;

verus! {

/// The line feed byte.
pub const LF: u8 = 10;

/// The carriage return byte.
pub const CR: u8 = 13;

/// Whether `s` holds a line feed.
pub open spec fn has_line_feed(s: Seq<u8>) -> bool {
    exists|i: int| 0 <= i < s.len() && s[i] == LF
}

/// The position of the first line feed of `s` (meaningful when there is one).
pub open spec fn first_line_feed(s: Seq<u8>) -> int {
    choose|i: int| 0 <= i < s.len() && s[i] == LF && forall|j: int| 0 <= j < i ==> s[j] != LF
}

/// The length of the line break that ends at the line feed at `p`: two when a
/// carriage return precedes it, else one.
pub open spec fn line_break_len(s: Seq<u8>, p: int) -> int {
    if p > 0 && s[p - 1] == CR {
        2
    } else {
        1
    }
}

/// A message framed for sending: the text followed by `\r\n`.
pub open spec fn framed(json: Seq<u8>) -> Seq<u8> {
    json + seq![CR, LF]
}

/// The position of the first line feed, if any.
fn find_line_feed(src: &Vec<u8>) -> (r: Option<usize>)
    ensures
        match r {
            Some(p) => p < src@.len() && src@[p as int] == LF && forall|j: int|
                0 <= j < p ==> src@[j] != LF,
            None => !has_line_feed(src@),
        },
{
    let mut i: usize = 0;
    while i < src.len()
        invariant
            0 <= i <= src@.len(),
            forall|j: int| 0 <= j < i ==> src@[j] != LF,
        decreases src@.len() - i,
    {
        if src[i] == LF {
            return Some(i);
        }
        i = i + 1;
    }
    None
}

/// `first_line_feed` is the position found by a left-to-right search.
proof fn lemma_first_line_feed(s: Seq<u8>, p: int)
    requires
        0 <= p < s.len(),
        s[p] == LF,
        forall|j: int| 0 <= j < p ==> s[j] != LF,
    ensures
        has_line_feed(s),
        first_line_feed(s) == p,
{
    let q = first_line_feed(s);
    assert(exists|i: int| 0 <= i < s.len() && s[i] == LF && forall|j: int| 0 <= j < i ==> s[j] != LF);
    if q < p {
        assert(s[q] != LF);
    } else if p < q {
        assert(s[p] != LF);
    }
}

/// Removes the first `n` bytes of `src` and returns them.
fn take_front(src: &mut Vec<u8>, n: usize) -> (r: Vec<u8>)
    requires
        n <= old(src)@.len(),
    ensures
        r@ == old(src)@.take(n as int),
        final(src)@ == old(src)@.skip(n as int),
{
    let mut rest = src.split_off(n);
    std::mem::swap(src, &mut rest);
    rest
}

/// A message text framed for sending and followed by more bytes is read back
/// by the client framing as exactly that text, leaving the bytes that follow,
/// when the text holds no line feed (JSON text never does).
pub proof fn law_client_reads_back_framed(json: Seq<u8>, rest: Seq<u8>)
    requires
        !has_line_feed(json),
    ensures
        has_line_feed(framed(json) + rest),
        ({
            let s = framed(json) + rest;
            let p = first_line_feed(s);
            &&& p == json.len() + 1
            &&& s.take(p + 1 - line_break_len(s, p)) == json
            &&& s.skip(p + 1) == rest
        }),
{
    let s = framed(json) + rest;
    let p: int = json.len() as int + 1;
    assert(s[p] == LF);
    assert forall|j: int| 0 <= j < p implies s[j] != LF by {
        if j < json.len() {
            assert(s[j] == json[j]);
        } else {
            assert(s[j] == CR);
        }
    }
    lemma_first_line_feed(s, p);
    assert(s[p - 1] == CR);
    assert(s.take(p + 1 - 2) =~= json);
    assert(s.skip(p + 1) =~= rest);
}

/// The server framing reads a framed message back as the text followed by the
/// carriage return, leaving the bytes that follow.
pub proof fn law_server_reads_back_framed(json: Seq<u8>, rest: Seq<u8>)
    requires
        !has_line_feed(json),
    ensures
        has_line_feed(framed(json) + rest),
        ({
            let s = framed(json) + rest;
            let p = first_line_feed(s);
            &&& s.take(p) == json.push(CR)
            &&& s.skip(p + 1) == rest
        }),
{
    law_client_reads_back_framed(json, rest);
    let s = framed(json) + rest;
    assert(s.take(json.len() + 1 as int) =~= json.push(CR));
}

/// Defines the framing of the messages that a client reads and sends.
pub struct StreamAPIClientCodec;

impl StreamAPIClientCodec {
    /// Takes the next complete message off the front of `src`: the text up to
    /// the first line feed, without the line break (`\n` or `\r\n`). Leaves
    /// `src` alone and returns `None` while no line feed has arrived.
    pub fn decode(&mut self, src: &mut Vec<u8>) -> (r: Option<Vec<u8>>)
        ensures
            !has_line_feed(old(src)@) ==> r.is_none() && final(src)@ == old(src)@,
            has_line_feed(old(src)@) ==> ({
                let p = first_line_feed(old(src)@);
                &&& r.is_some()
                &&& r.unwrap()@ == old(src)@.take(p + 1 - line_break_len(old(src)@, p))
                &&& final(src)@ == old(src)@.skip(p + 1)
            }),
    {
        let len = src.len();
        match find_line_feed(src) {
            None => None,
            Some(pos) => {
                assert(pos < len);
                proof {
                    lemma_first_line_feed(src@, pos as int);
                }
                let delimiter_size: usize = if pos > 0 && src[pos - 1] == CR {
                    2
                } else {
                    1
                };
                let mut line = take_front(src, pos + 1);
                line.truncate(pos + 1 - delimiter_size);
                Some(line)
            },
        }
    }

    /// Appends the framed message to `dst`.
    pub fn encode(&mut self, json: &[u8], dst: &mut Vec<u8>)
        ensures
            final(dst)@ == old(dst)@ + framed(json@),
    {
        dst.extend_from_slice(json);
        let crlf: [u8; 2] = [CR, LF];
        dst.extend_from_slice(&crlf);
        proof {
            assert(crlf@ =~= seq![CR, LF]);
            assert(final(dst)@ =~= old(dst)@ + framed(json@)) by {
                assert(dst@ =~= old(dst)@ + json@ + seq![CR, LF]);
            }
        }
    }
}

/// Defines the framing of the messages that the mock server reads and sends.
pub struct StreamAPIServerCodec;

impl StreamAPIServerCodec {
    /// Takes the next complete message off the front of `src`: the text up to
    /// the first line feed, without that line feed. Leaves `src` alone and
    /// returns `None` while no line feed has arrived.
    pub fn decode(&mut self, src: &mut Vec<u8>) -> (r: Option<Vec<u8>>)
        ensures
            !has_line_feed(old(src)@) ==> r.is_none() && final(src)@ == old(src)@,
            has_line_feed(old(src)@) ==> ({
                let p = first_line_feed(old(src)@);
                &&& r.is_some()
                &&& r.unwrap()@ == old(src)@.take(p)
                &&& final(src)@ == old(src)@.skip(p + 1)
            }),
    {
        let len = src.len();
        match find_line_feed(src) {
            None => None,
            Some(newline_index) => {
                assert(newline_index < len);
                proof {
                    lemma_first_line_feed(src@, newline_index as int);
                }
                let mut line = take_front(src, newline_index + 1);
                line.truncate(newline_index);
                Some(line)
            },
        }
    }

    /// Appends the framed message to `dst`.
    pub fn encode(&mut self, json: &[u8], dst: &mut Vec<u8>)
        ensures
            final(dst)@ == old(dst)@ + framed(json@),
    {
        dst.extend_from_slice(json);
        let crlf: [u8; 2] = [CR, LF];
        dst.extend_from_slice(&crlf);
        proof {
            assert(crlf@ =~= seq![CR, LF]);
            assert(dst@ =~= old(dst)@ + json@ + seq![CR, LF]);
        }
    }
}

} // verus!
