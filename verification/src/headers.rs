//! Reading the message strategy from the values of a header.
//!
//! A header's values are given as their raw bytes, in the order in which
//! they stand in the request. A value reads as text exactly when every byte
//! is visible ASCII or a tab, as `http::HeaderValue::to_str` decides.
use vstd::prelude::*;
use crate::extensions::{content_type_of, MessageStrategy, StrategyView};
use crate::text::{all_ascii, ascii_bytes, ascii_chars, ascii_string};

verus! {

/// A byte that may stand in a header value that reads as text.
pub open spec fn is_visible_ascii(b: u8) -> bool {
    (32 <= b && b < 127) || b == 9
}

/// A header value that reads as text.
pub open spec fn is_header_text(v: Seq<u8>) -> bool {
    forall|i: int| 0 <= i < v.len() ==> is_visible_ascii(#[trigger] v[i])
}

/// `v` begins with `p`.
pub open spec fn starts_with(v: Seq<u8>, p: Seq<u8>) -> bool {
    p.len() <= v.len() && v.take(p.len() as int) == p
}

/// The media type of JSON messages.
pub open spec fn json_type() -> Seq<u8> {
    ascii_bytes("application/json"@)
}

/// The media type of protobuf messages.
pub open spec fn proto_type() -> Seq<u8> {
    ascii_bytes("application/protobuf"@)
}

/// The other media type of protobuf messages.
pub open spec fn x_proto_type() -> Seq<u8> {
    ascii_bytes("application/x-protobuf"@)
}

/// A value that asks for JSON: exactly `application/json`.
pub open spec fn is_json_value(v: Seq<u8>) -> bool {
    v == json_type()
}

/// A value that asks for protobuf: text that begins with
/// `application/protobuf` or `application/x-protobuf` (whatever follows, such
/// as `; <message type>`).
pub open spec fn is_proto_value(v: Seq<u8>) -> bool {
    is_header_text(v) && (starts_with(v, proto_type()) || starts_with(v, x_proto_type()))
}

/// The index of the first `;` in `v` at or after `i`, or the length of `v`.
pub open spec fn semicolon_from(v: Seq<u8>, i: nat) -> nat
    decreases v.len() - i,
{
    if i >= v.len() {
        v.len()
    } else if v[i as int] == 59 {
        i
    } else {
        semicolon_from(v, i + 1)
    }
}

/// The name that a protobuf value gives the strategy: the value up to its
/// first `;`.
pub open spec fn proto_name(v: Seq<u8>) -> Seq<char> {
    ascii_chars(v.take(semicolon_from(v, 0) as int))
}

/// The index of the first value at or after `i` that asks for protobuf.
pub open spec fn first_proto_from(vs: Seq<Seq<u8>>, i: nat) -> Option<nat>
    decreases vs.len() - i,
{
    if i >= vs.len() {
        None
    } else if is_proto_value(vs[i as int]) {
        Some(i)
    } else {
        first_proto_from(vs, i + 1)
    }
}

/// Some value asks for JSON.
pub open spec fn any_json(vs: Seq<Seq<u8>>) -> bool {
    exists|i: int| 0 <= i < vs.len() && is_json_value(#[trigger] vs[i])
}

/// The strategy that a header's values ask for. Protobuf wins over JSON;
/// JSON is taken only where it is allowed; plain text is what is left.
pub open spec fn parse_headers_spec(vs: Seq<Seq<u8>>, allow_json: bool) -> StrategyView {
    match first_proto_from(vs, 0) {
        Some(k) => StrategyView::NamedProto(proto_name(vs[k as int])),
        None => if allow_json && any_json(vs) {
            StrategyView::Json
        } else {
            StrategyView::Plaintext
        },
    }
}

/// The bytes of an ASCII string literal.
fn literal_bytes(s: &'static str) -> (r: &'static [u8])
    requires
        vstd::string::is_ascii(s),
    ensures
        r@ == ascii_bytes(s@),
{
    broadcast use vstd::string::is_ascii_spec_bytes;

    s.as_bytes()
}

fn json_bytes() -> (r: &'static [u8])
    ensures
        r@ == json_type(),
{
    proof {
        reveal_strlit("application/json");
    }
    literal_bytes("application/json")
}


fn proto_bytes() -> (r: &'static [u8])
    ensures
        r@ == proto_type(),
{
    proof {
        reveal_strlit("application/protobuf");
    }
    literal_bytes("application/protobuf")
}

fn x_proto_bytes() -> (r: &'static [u8])
    ensures
        r@ == x_proto_type(),
{
    proof {
        reveal_strlit("application/x-protobuf");
    }
    literal_bytes("application/x-protobuf")
}

/// Whether a header value reads as text.
pub fn header_is_text(v: &[u8]) -> (r: bool)
    ensures
        r == is_header_text(v@),
{
    let mut i: usize = 0;
    while i < v.len()
        invariant
            i <= v.len(),
            forall|j: int| 0 <= j < i ==> is_visible_ascii(#[trigger] v@[j]),
        decreases v.len() - i,
    {
        let b = v[i];
        if !((32 <= b && b < 127) || b == 9) {
            return false;
        }
        i += 1;
    }
    true
}

/// Whether `v` begins with `p`.
fn bytes_start_with(v: &[u8], p: &[u8]) -> (r: bool)
    ensures
        r == starts_with(v@, p@),
{
    if p.len() > v.len() {
        return false;
    }
    let mut i: usize = 0;
    while i < p.len()
        invariant
            p.len() <= v.len(),
            i <= p.len(),
            forall|j: int| 0 <= j < i ==> v@[j] == p@[j],
        decreases p.len() - i,
    {
        if v[i] != p[i] {
            assert(v@.take(p@.len() as int)[i as int] != p@[i as int]);
            return false;
        }
        i += 1;
    }
    assert(v@.take(p@.len() as int) =~= p@);
    true
}

/// Whether two byte strings are equal.
fn bytes_equal(v: &[u8], p: &[u8]) -> (r: bool)
    ensures
        r == (v@ == p@),
{
    if v.len() != p.len() {
        return false;
    }
    let r = bytes_start_with(v, p);
    assert(v@ =~= v@.take(p@.len() as int));
    r
}

/// The part of `v` before its first `;`.
fn before_semicolon(v: &[u8]) -> (r: Vec<u8>)
    ensures
        r@ == v@.take(semicolon_from(v@, 0) as int),
{
    let mut out: Vec<u8> = Vec::new();
    let mut i: usize = 0;
    while i < v.len() && v[i] != 59
        invariant
            i <= v.len(),
            semicolon_from(v@, 0) == semicolon_from(v@, i as nat),
            out@ == v@.take(i as int),
        decreases v.len() - i,
    {
        out.push(v[i]);
        i += 1;
        assert(out@ =~= v@.take(i as int));
    }
    out
}

/// Whether a header value asks for protobuf.
fn asks_for_proto(v: &[u8]) -> (r: bool)
    ensures
        r == is_proto_value(v@),
{
    header_is_text(v) && (bytes_start_with(v, proto_bytes()) || bytes_start_with(v, x_proto_bytes()))
}

/// Header text is ASCII.
proof fn lemma_header_text_is_ascii(v: Seq<u8>, n: int)
    requires
        is_header_text(v),
        0 <= n <= v.len(),
    ensures
        all_ascii(v.take(n)),
{
    assert forall|i: int| 0 <= i < v.take(n).len() implies #[trigger] v.take(n)[i] < 128 by {
        assert(is_visible_ascii(v[i]));
    }
}

/// The value that `first_proto_from` finds asks for protobuf.
proof fn lemma_first_proto_found(vs: Seq<Seq<u8>>, i: nat)
    ensures
        first_proto_from(vs, i) matches Some(k) ==> i <= k < vs.len() && is_proto_value(vs[k as int]),
    decreases vs.len() - i,
{
    if i < vs.len() && !is_proto_value(vs[i as int]) {
        lemma_first_proto_found(vs, i + 1);
    }
}

/// The length of the prefix that `semicolon_from` marks is within `v`.
proof fn lemma_semicolon_from_bound(v: Seq<u8>, i: nat)
    requires
        i <= v.len(),
    ensures
        i <= semicolon_from(v, i) <= v.len(),
    decreases v.len() - i,
{
    if i < v.len() && v[i as int] != 59 {
        lemma_semicolon_from_bound(v, i + 1);
    }
}

/// The strategy that a header's values ask for (its values as raw bytes, in
/// order), with JSON taken only if `allow_json`.
///
/// JSON is asked for by a value that is exactly `application/json`; protobuf
/// by a text value that begins with `application/protobuf` or
/// `application/x-protobuf`. Protobuf is preferred where both are asked for,
/// and the strategy is named by the first protobuf value up to its first
/// `;`. Without either, the body is plain text.
pub fn parse_headers(values: &Vec<Vec<u8>>, allow_json: bool) -> (r: MessageStrategy)
    ensures
        r@ == parse_headers_spec(values.deep_view(), allow_json),
{
    let ghost vs = values.deep_view();
    let json_pat = json_bytes();
    let mut json = false;
    let mut found: Option<usize> = None;
    let mut i: usize = 0;
    while i < values.len()
        invariant
            i <= values.len(),
            vs == values.deep_view(),
            vs.len() == values.len(),
            json_pat@ == json_type(),
            json <==> exists|j: int| 0 <= j < i && is_json_value(#[trigger] vs[j]),
            found is None ==> first_proto_from(vs, 0) == first_proto_from(vs, i as nat),
            found matches Some(k) ==> k < i && first_proto_from(vs, 0) == Some(k as nat),
        decreases values.len() - i,
    {
        let v = values[i].as_slice();
        assert(v@ == vs[i as int]);
        if !json && bytes_equal(v, json_pat) {
            json = true;
        }
        if found.is_none() && asks_for_proto(v) {
            found = Some(i);
        }
        i += 1;
    }
    assert(json <==> any_json(vs));
    match found {
        Some(k) => {
            let v = values[k].as_slice();
            assert(v@ == vs[k as int]);
            let name = before_semicolon(v);
            proof {
                lemma_first_proto_found(vs, 0);
                lemma_semicolon_from_bound(v@, 0);
                lemma_header_text_is_ascii(v@, semicolon_from(v@, 0) as int);
            }
            MessageStrategy::NamedProto(ascii_string(name))
        },
        None => {
            if json && allow_json {
                MessageStrategy::Json
            } else {
                MessageStrategy::Plaintext
            }
        },
    }
}


/// `first_proto_from` finds a value exactly when some value at or after `i`
/// asks for protobuf.
proof fn lemma_first_proto_exists(vs: Seq<Seq<u8>>, i: nat)
    ensures
        first_proto_from(vs, i) is Some <==> exists|k: int|
            i <= k < vs.len() && is_proto_value(#[trigger] vs[k]),
    decreases vs.len() - i,
{
    if i < vs.len() {
        lemma_first_proto_exists(vs, i + 1);
        if !is_proto_value(vs[i as int]) {
            assert forall|k: int| i <= k < vs.len() && is_proto_value(#[trigger] vs[k]) implies i
                + 1 <= k by {}
        }
    }
}

/// Protobuf is preferred: wherever some value asks for protobuf, the
/// strategy is a protobuf one, named by the first such value, whatever else
/// is asked for and whether JSON is allowed or not.
pub proof fn lemma_protobuf_preferred(vs: Seq<Seq<u8>>, allow_json: bool)
    requires
        exists|i: int| 0 <= i < vs.len() && is_proto_value(#[trigger] vs[i]),
    ensures
        parse_headers_spec(vs, allow_json) is NamedProto,
        first_proto_from(vs, 0) matches Some(k) && parse_headers_spec(vs, allow_json)
            == StrategyView::NamedProto(proto_name(vs[k as int])) && is_proto_value(vs[k as int])
            && forall|j: int| 0 <= j < k ==> !is_proto_value(#[trigger] vs[j]),
{
    lemma_first_proto_exists(vs, 0);
    lemma_first_proto_found(vs, 0);
    lemma_first_proto_is_first(vs, 0);
}

/// No value before the one that `first_proto_from` finds asks for protobuf.
proof fn lemma_first_proto_is_first(vs: Seq<Seq<u8>>, i: nat)
    ensures
        first_proto_from(vs, i) matches Some(k) ==> forall|j: int|
            i <= j < k ==> !is_proto_value(#[trigger] vs[j]),
    decreases vs.len() - i,
{
    if i < vs.len() && !is_proto_value(vs[i as int]) {
        lemma_first_proto_is_first(vs, i + 1);
    }
}

/// JSON is taken only where it is allowed: with JSON not allowed, the
/// strategy is never JSON.
pub proof fn lemma_json_only_if_allowed(vs: Seq<Seq<u8>>)
    ensures
        !(parse_headers_spec(vs, false) is Json),
{
}

/// Where no value asks for protobuf, the strategy is JSON exactly when JSON
/// is allowed and some value is `application/json`, and plain text
/// otherwise.
pub proof fn lemma_without_protobuf(vs: Seq<Seq<u8>>, allow_json: bool)
    requires
        forall|i: int| 0 <= i < vs.len() ==> !is_proto_value(#[trigger] vs[i]),
    ensures
        parse_headers_spec(vs, allow_json) == (if allow_json && any_json(vs) {
            StrategyView::Json
        } else {
            StrategyView::Plaintext
        }),
{
    lemma_first_proto_exists(vs, 0);
}


/// A response is sent in the media type that a request's single `Accept`
/// value names, for `application/protobuf` and (where JSON is allowed)
/// `application/json`: the response's `Content-Type`, as bytes, is that
/// value.
pub proof fn lemma_content_type_follows_accept(v: Seq<u8>)
    requires
        v == json_type() || v == proto_type(),
    ensures
        ascii_bytes(content_type_of(parse_headers_spec(seq![v], true))) == v,
{
    let vs = seq![v];
    reveal_strlit("application/json");
    reveal_strlit("application/protobuf");
    reveal_strlit("application/x-protobuf");
    if v == proto_type() {
        assert(is_header_text(v));
        assert(v.take(proto_type().len() as int) =~= proto_type());
        assert(is_proto_value(vs[0]));
        lemma_protobuf_preferred(vs, true);
    } else {
        assert(json_type().len() == 16);
        assert(!is_proto_value(vs[0]));
        assert(is_json_value(vs[0]));
        assert(any_json(vs));
        lemma_without_protobuf(vs, true);
    }
}


/// A header value reads as text exactly when each of its bytes is a tab or
/// lies in 32..=126 (printable ASCII and space), whatever the bytes are.
pub proof fn law_header_text_bytes(v: Seq<u8>)
    ensures
        is_header_text(v) <==> forall|i: int|
            0 <= i < v.len() ==> ((32 <= #[trigger] v[i] && v[i] < 127) || v[i] == 9),
{
}

/// `v` starts with `p` exactly when `p` is no longer than `v` and agrees
/// with `v` byte by byte, however long `v` is.
pub proof fn law_starts_with(v: Seq<u8>, p: Seq<u8>)
    ensures
        starts_with(v, p) <==> (p.len() <= v.len() && forall|i: int|
            0 <= i < p.len() ==> #[trigger] v[i] == p[i]),
{
    if p.len() <= v.len() && forall|i: int| 0 <= i < p.len() ==> #[trigger] v[i] == p[i] {
        assert(v.take(p.len() as int) =~= p);
    }
    if starts_with(v, p) {
        assert forall|i: int| 0 <= i < p.len() implies #[trigger] v[i] == p[i] by {
            assert(v.take(p.len() as int)[i] == p[i]);
        }
    }
}

/// A value asks for protobuf exactly when it reads as text (each byte a tab
/// or in 32..=126) and its first 20 bytes are `application/protobuf` or its
/// first 22 bytes are `application/x-protobuf`, whatever follows.
pub proof fn law_proto_value_bytes(v: Seq<u8>)
    ensures
        is_proto_value(v) <==> ((forall|i: int|
            0 <= i < v.len() ==> ((32 <= #[trigger] v[i] && v[i] < 127) || v[i] == 9)) && ((20
            <= v.len() && v.take(20) == ascii_bytes("application/protobuf"@)) || (22 <= v.len()
            && v.take(22) == ascii_bytes("application/x-protobuf"@)))),
{
    reveal_strlit("application/protobuf");
    reveal_strlit("application/x-protobuf");
    assert(proto_type().len() == 20);
    assert(x_proto_type().len() == 22);
    law_header_text_bytes(v);
}

/// `first_proto_from` finds the value at `i` when it asks for protobuf and
/// none from `start` up to it does.
proof fn lemma_first_proto_at(vs: Seq<Seq<u8>>, start: nat, i: nat)
    requires
        start <= i < vs.len(),
        is_proto_value(vs[i as int]),
        forall|j: int| start <= j < i ==> !is_proto_value(#[trigger] vs[j]),
    ensures
        first_proto_from(vs, start) == Some(i),
    decreases i - start,
{
    if start < i {
        assert(!is_proto_value(vs[start as int]));
        lemma_first_proto_at(vs, start + 1, i);
    }
}

/// `semicolon_from` finds the position `k` when no `;` stands before it and
/// `k` is either the end or a `;`.
proof fn lemma_semicolon_at(v: Seq<u8>, i: nat, k: nat)
    requires
        i <= k <= v.len(),
        forall|j: int| i <= j < k ==> #[trigger] v[j] != 59,
        k == v.len() || v[k as int] == 59,
    ensures
        semicolon_from(v, i) == k,
    decreases k - i,
{
    if i < k {
        lemma_semicolon_at(v, i + 1, k);
    }
}

/// The value at `i` names the protobuf strategy when it reads as text and
/// begins with `application/protobuf` or `application/x-protobuf` (whatever
/// follows), and no value before it does so: the name is its text up to the
/// first `;` (`k` bytes), whatever other values ask for and whether JSON is
/// allowed or not.
pub proof fn law_first_protobuf_value_names(
    vs: Seq<Seq<u8>>,
    i: int,
    k: int,
    allow_json: bool,
)
    requires
        0 <= i < vs.len(),
        forall|b: int|
            0 <= b < vs[i].len() ==> ((32 <= #[trigger] vs[i][b] && vs[i][b] < 127) || vs[i][b]
                == 9),
        (20 <= vs[i].len() && vs[i].take(20) == ascii_bytes("application/protobuf"@)) || (22
            <= vs[i].len() && vs[i].take(22) == ascii_bytes("application/x-protobuf"@)),
        forall|j: int|
            0 <= j < i ==> !((forall|b: int|
                0 <= b < vs[j].len() ==> ((32 <= #[trigger] vs[j][b] && vs[j][b] < 127)
                    || vs[j][b] == 9)) && ((20 <= vs[j].len() && vs[j].take(20) == ascii_bytes(
                "application/protobuf"@,
            )) || (22 <= vs[j].len() && vs[j].take(22) == ascii_bytes(
                "application/x-protobuf"@,
            )))),
        0 <= k <= vs[i].len(),
        forall|b: int| 0 <= b < k ==> #[trigger] vs[i][b] != 59,
        k == vs[i].len() || vs[i][k] == 59,
    ensures
        parse_headers_spec(vs, allow_json) == StrategyView::NamedProto(
            Seq::new(k as nat, |b: int| vs[i][b] as char),
        ),
{
    law_proto_value_bytes(vs[i]);
    assert forall|j: int| 0 <= j < i implies !is_proto_value(#[trigger] vs[j]) by {
        law_proto_value_bytes(vs[j]);
    }
    lemma_first_proto_at(vs, 0, i as nat);
    lemma_semicolon_at(vs[i], 0, k as nat);
    assert(proto_name(vs[i]) =~= Seq::new(k as nat, |b: int| vs[i][b] as char));
}

/// Any value that reads as text and begins with `application/protobuf` or
/// `application/x-protobuf` makes the strategy a protobuf one, wherever it
/// stands and whatever follows the prefix (parameters, lists, any printable
/// bytes), with JSON allowed or not.
pub proof fn law_protobuf_value_selects_protobuf(vs: Seq<Seq<u8>>, i: int, allow_json: bool)
    requires
        0 <= i < vs.len(),
        forall|b: int|
            0 <= b < vs[i].len() ==> ((32 <= #[trigger] vs[i][b] && vs[i][b] < 127) || vs[i][b]
                == 9),
        (20 <= vs[i].len() && vs[i].take(20) == ascii_bytes("application/protobuf"@)) || (22
            <= vs[i].len() && vs[i].take(22) == ascii_bytes("application/x-protobuf"@)),
    ensures
        parse_headers_spec(vs, allow_json) is NamedProto,
{
    law_proto_value_bytes(vs[i]);
    lemma_protobuf_preferred(vs, allow_json);
}

/// Where JSON is allowed, no value asks for protobuf, and the value at any
/// index `i` is exactly `application/json`, the strategy is JSON.
pub proof fn law_json_value_anywhere(vs: Seq<Seq<u8>>, i: int)
    requires
        0 <= i < vs.len(),
        vs[i] == ascii_bytes("application/json"@),
        forall|j: int|
            0 <= j < vs.len() ==> !((forall|b: int|
                0 <= b < vs[j].len() ==> ((32 <= #[trigger] vs[j][b] && vs[j][b] < 127)
                    || vs[j][b] == 9)) && ((20 <= vs[j].len() && vs[j].take(20) == ascii_bytes(
                "application/protobuf"@,
            )) || (22 <= vs[j].len() && vs[j].take(22) == ascii_bytes(
                "application/x-protobuf"@,
            )))),
    ensures
        parse_headers_spec(vs, true) == StrategyView::Json,
{
    assert forall|j: int| 0 <= j < vs.len() implies !is_proto_value(#[trigger] vs[j]) by {
        law_proto_value_bytes(vs[j]);
    }
    assert(is_json_value(vs[i]));
    assert(any_json(vs));
    lemma_without_protobuf(vs, true);
}

/// Where no value asks for protobuf and none is exactly `application/json`,
/// the strategy is plain text, with JSON allowed or not.
pub proof fn law_plaintext_otherwise(vs: Seq<Seq<u8>>, allow_json: bool)
    requires
        forall|j: int| 0 <= j < vs.len() ==> #[trigger] vs[j] != ascii_bytes("application/json"@),
        forall|j: int|
            0 <= j < vs.len() ==> !((forall|b: int|
                0 <= b < vs[j].len() ==> ((32 <= #[trigger] vs[j][b] && vs[j][b] < 127)
                    || vs[j][b] == 9)) && ((20 <= vs[j].len() && vs[j].take(20) == ascii_bytes(
                "application/protobuf"@,
            )) || (22 <= vs[j].len() && vs[j].take(22) == ascii_bytes(
                "application/x-protobuf"@,
            )))),
    ensures
        parse_headers_spec(vs, allow_json) == StrategyView::Plaintext,
{
    assert forall|j: int| 0 <= j < vs.len() implies !is_proto_value(#[trigger] vs[j]) by {
        law_proto_value_bytes(vs[j]);
    }
    assert(!any_json(vs));
    lemma_without_protobuf(vs, allow_json);
}

} // verus!
