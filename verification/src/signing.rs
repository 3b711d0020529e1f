//! The text that a request signature covers, and the signature itself.
//!
//! The text is `instruction=` with the operation's tag, then each parameter
//! as `&key=value` in the order of the keys, then `&timestamp=` and
//! `&window=` with their numbers.

use crate::crypto::{base64_text, ed25519_signature, encode_base64, sign_bytes, SECRET_KEY_LENGTH};
use crate::json::{JsonBody, JsonField, JsonItem, JsonScalar};
use crate::params::{inserted, Pair, ParamList};
use crate::text::{
    append, append_str, contains, contains_text, decimal, decimal_chars, find_char, from_chars,
    index_of, slice_of, str_eq, to_chars,
};
use vstd::prelude::*;
use vstd::utf8::encode_utf8;

verus! {

/// The validity of a signature after its timestamp, in milliseconds.
pub const SIGNING_WINDOW_MS: u64 = 5000;

/// The operation that a signature authorises.
#[derive(Clone, Copy, Debug, PartialEq, Eq, Structural)]
pub enum Instruction {
    CollateralQuery,
    BalanceQuery,
    OrderExecute,
    OrderQuery,
    OrderCancel,
    PositionQuery,
}

impl Instruction {
    /// The tag that the exchange knows the operation by.
    pub open spec fn spec_tag(self) -> Seq<char> {
        match self {
            Instruction::CollateralQuery => "collateralQuery"@,
            Instruction::BalanceQuery => "balanceQuery"@,
            Instruction::OrderExecute => "orderExecute"@,
            Instruction::OrderQuery => "orderQuery"@,
            Instruction::OrderCancel => "orderCancel"@,
            Instruction::PositionQuery => "positionQuery"@,
        }
    }

    /// The tag that the exchange knows the operation by.
    pub fn tag(self) -> (t: &'static str)
        ensures
            t@ == self.spec_tag(),
    {
        match self {
            Instruction::CollateralQuery => "collateralQuery",
            Instruction::BalanceQuery => "balanceQuery",
            Instruction::OrderExecute => "orderExecute",
            Instruction::OrderQuery => "orderQuery",
            Instruction::OrderCancel => "orderCancel",
            Instruction::PositionQuery => "positionQuery",
        }
    }
}

/// The operation behind an HTTP method and an endpoint path, if the pair is
/// one that can be signed.
pub open spec fn instruction_for(method: Seq<char>, path: Seq<char>) -> Option<Instruction> {
    if contains_text(path, "/capital"@) {
        if contains_text(path, "/collateral"@) {
            Some(Instruction::CollateralQuery)
        } else {
            Some(Instruction::BalanceQuery)
        }
    } else if contains_text(path, "/orders"@) && method == "POST"@ {
        Some(Instruction::OrderExecute)
    } else if contains_text(path, "/orders"@) && method == "GET"@ {
        Some(Instruction::OrderQuery)
    } else if contains_text(path, "/orders"@) && method == "DELETE"@ {
        Some(Instruction::OrderCancel)
    } else if contains_text(path, "/position"@) {
        Some(Instruction::PositionQuery)
    } else {
        None
    }
}

/// The operation behind an HTTP method and an endpoint path.
pub fn lookup_instruction(method: &str, path: &str) -> (r: Option<Instruction>)
    ensures
        r == instruction_for(method@, path@),
{
    let p = to_chars(path);
    if contains(&p, &to_chars("/capital")) {
        if contains(&p, &to_chars("/collateral")) {
            Some(Instruction::CollateralQuery)
        } else {
            Some(Instruction::BalanceQuery)
        }
    } else if contains(&p, &to_chars("/orders")) && str_eq(method, "POST") {
        Some(Instruction::OrderExecute)
    } else if contains(&p, &to_chars("/orders")) && str_eq(method, "GET") {
        Some(Instruction::OrderQuery)
    } else if contains(&p, &to_chars("/orders")) && str_eq(method, "DELETE") {
        Some(Instruction::OrderCancel)
    } else if contains(&p, &to_chars("/position")) {
        Some(Instruction::PositionQuery)
    } else {
        None
    }
}

/// `params` after one piece of a query string: a piece with `=` in it gives
/// the text before the first `=` the text after it as its value; a piece
/// without is passed over.
pub open spec fn with_piece(params: Seq<Pair>, piece: Seq<char>) -> Seq<Pair> {
    let at = index_of(piece, '=');
    if 0 <= at < piece.len() {
        inserted(params, piece.subrange(0, at), piece.subrange(at + 1, piece.len() as int))
    } else {
        params
    }
}

/// `params` after the pieces of a query string, which `&` separates, taken
/// from the left.
pub open spec fn with_query(params: Seq<Pair>, query: Seq<char>) -> Seq<Pair>
    decreases query.len(),
{
    let end = index_of(query, '&');
    if 0 <= end < query.len() {
        with_query(
            with_piece(params, query.subrange(0, end)),
            query.subrange(end + 1, query.len() as int),
        )
    } else {
        with_piece(params, query)
    }
}

/// `params` after the query string of `path`: what follows its first `?`.
pub open spec fn with_path(params: Seq<Pair>, path: Seq<char>) -> Seq<Pair> {
    let at = index_of(path, '?');
    if 0 <= at < path.len() {
        with_query(params, path.subrange(at + 1, path.len() as int))
    } else {
        params
    }
}

/// The text under which a scalar is signed; `None` for what is skipped.
pub open spec fn scalar_text(value: JsonScalar) -> Option<Seq<char>> {
    match value {
        JsonScalar::Text(s) => Some(s@),
        JsonScalar::Number(n) => Some(n@),
        JsonScalar::Bool(b) => Some(
            if b {
                "true"@
            } else {
                "false"@
            },
        ),
        JsonScalar::Null => None,
        JsonScalar::Structured => None,
    }
}

/// `params` after the scalar fields of an object, each key followed by
/// `suffix`.
pub open spec fn with_fields(params: Seq<Pair>, fields: Seq<JsonField>, suffix: Seq<char>) -> Seq<
    Pair,
>
    decreases fields.len(),
{
    if fields.len() == 0 {
        params
    } else {
        let before = with_fields(params, fields.drop_last(), suffix);
        match scalar_text(fields.last().value) {
            Some(text) => inserted(before, fields.last().key@ + suffix, text),
            None => before,
        }
    }
}

/// What follows the keys of the element at `index` of a batch of `count`
/// elements: the index in square brackets, but nothing in a batch of one.
pub open spec fn index_suffix(index: nat, count: nat) -> Seq<char> {
    if count > 1 {
        "["@ + decimal(index) + "]"@
    } else {
        Seq::<char>::empty()
    }
}

/// `params` after the objects among the first elements of a batch of `count`.
pub open spec fn with_items(params: Seq<Pair>, items: Seq<JsonItem>, count: nat) -> Seq<Pair>
    decreases items.len(),
{
    if items.len() == 0 {
        params
    } else {
        let before = with_items(params, items.drop_last(), count);
        match items.last() {
            JsonItem::Object(fields) => with_fields(
                before,
                fields@,
                index_suffix((items.len() - 1) as nat, count),
            ),
            JsonItem::Other => before,
        }
    }
}

/// `params` after a request body.
pub open spec fn with_body(params: Seq<Pair>, body: JsonBody) -> Seq<Pair> {
    match body {
        JsonBody::List(items) => with_items(params, items@, items@.len()),
        JsonBody::Object(fields) => with_fields(params, fields@, Seq::<char>::empty()),
        JsonBody::Other => params,
    }
}

/// The parameters as they stand in the signed text.
pub open spec fn joined(params: Seq<Pair>) -> Seq<char>
    decreases params.len(),
{
    if params.len() == 0 {
        Seq::<char>::empty()
    } else {
        joined(params.drop_last()) + "&"@ + params.last().0 + "="@ + params.last().1
    }
}

/// What follows the parameters in the signed text.
pub open spec fn message_tail(timestamp: u64, window: u64) -> Seq<char> {
    "&timestamp="@ + decimal(timestamp as nat) + "&window="@ + decimal(window as nat)
}

/// The text that a signature covers.
pub open spec fn signing_message(tag: Seq<char>, params: Seq<Pair>, timestamp: u64, window: u64) -> Seq<
    char,
> {
    "instruction="@ + tag + joined(params) + message_tail(timestamp, window)
}

/// The signature of `message` under `secret`, as base64 text.
pub open spec fn signature_text(secret: Seq<u8>, message: Seq<char>) -> Seq<char> {
    base64_text(ed25519_signature(secret, encode_utf8(message)))
}

/// Takes one piece of a query string into `params`.
pub fn add_piece(params: &mut ParamList, piece: &Vec<char>)
    requires
        old(params).wf(),
    ensures
        final(params).wf(),
        final(params)@ == with_piece(old(params)@, piece@),
{
    let at = find_char(piece, '=');
    if at < piece.len() {
        params.insert(slice_of(piece, 0, at), slice_of(piece, at + 1, piece.len()));
    }
}

/// Takes the pieces of a query string into `params`.
pub fn add_query(params: &mut ParamList, query: &Vec<char>)
    requires
        old(params).wf(),
    ensures
        final(params).wf(),
        final(params)@ == with_query(old(params)@, query@),
    decreases query@.len(),
{
    let end = find_char(query, '&');
    if end < query.len() {
        add_piece(params, &slice_of(query, 0, end));
        add_query(params, &slice_of(query, end + 1, query.len()));
    } else {
        add_piece(params, query);
    }
}

/// Takes the query string of `path` into `params`.
pub fn add_path(params: &mut ParamList, path: &str)
    requires
        old(params).wf(),
    ensures
        final(params).wf(),
        final(params)@ == with_path(old(params)@, path@),
{
    let chars = to_chars(path);
    let at = find_char(&chars, '?');
    if at < chars.len() {
        add_query(params, &slice_of(&chars, at + 1, chars.len()));
    }
}

/// The text under which a scalar is signed.
pub fn render_scalar(value: &JsonScalar) -> (r: Option<Vec<char>>)
    ensures
        match r {
            Some(text) => scalar_text(*value) == Some(text@),
            None => scalar_text(*value) is None,
        },
{
    match value {
        JsonScalar::Text(s) => Some(to_chars(s.as_str())),
        JsonScalar::Number(n) => Some(to_chars(n.as_str())),
        JsonScalar::Bool(b) => Some(
            if *b {
                to_chars("true")
            } else {
                to_chars("false")
            },
        ),
        JsonScalar::Null => None,
        JsonScalar::Structured => None,
    }
}

/// Takes the scalar fields of an object into `params`.
pub fn add_fields(params: &mut ParamList, fields: &Vec<JsonField>, suffix: &Vec<char>)
    requires
        old(params).wf(),
    ensures
        final(params).wf(),
        final(params)@ == with_fields(old(params)@, fields@, suffix@),
{
    let mut i: usize = 0;
    assert(fields@.subrange(0, 0) =~= Seq::<JsonField>::empty());
    while i < fields.len()
        invariant
            i <= fields@.len(),
            params.wf(),
            params@ == with_fields(old(params)@, fields@.subrange(0, i as int), suffix@),
        decreases fields@.len() - i,
    {
        assert(fields@.subrange(0, i + 1).drop_last() =~= fields@.subrange(0, i as int));
        match render_scalar(&fields[i].value) {
            Some(text) => {
                let mut key = to_chars(fields[i].key.as_str());
                append(&mut key, suffix);
                params.insert(key, text);
            },
            None => {},
        }
        i += 1;
    }
    assert(fields@.subrange(0, fields@.len() as int) =~= fields@);
}

/// What follows the keys of the element at `index` of a batch of `count`.
pub fn suffix_of(index: usize, count: usize) -> (out: Vec<char>)
    ensures
        out@ == index_suffix(index as nat, count as nat),
{
    let mut out: Vec<char> = Vec::new();
    if count > 1 {
        append_str(&mut out, "[");
        append(&mut out, &decimal_chars(index as u64));
        append_str(&mut out, "]");
        assert(out@ =~= "["@ + decimal(index as nat) + "]"@);
    }
    out
}

/// Takes a request body into `params`.
pub fn add_body(params: &mut ParamList, body: &JsonBody)
    requires
        old(params).wf(),
    ensures
        final(params).wf(),
        final(params)@ == with_body(old(params)@, *body),
{
    match body {
        JsonBody::List(items) => {
            let mut i: usize = 0;
            assert(items@.subrange(0, 0) =~= Seq::<JsonItem>::empty());
            while i < items.len()
                invariant
                    i <= items@.len(),
                    params.wf(),
                    params@ == with_items(
                        old(params)@,
                        items@.subrange(0, i as int),
                        items@.len(),
                    ),
                decreases items@.len() - i,
            {
                assert(items@.subrange(0, i + 1).drop_last() =~= items@.subrange(0, i as int));
                match &items[i] {
                    JsonItem::Object(fields) => {
                        let suffix = suffix_of(i, items.len());
                        add_fields(params, fields, &suffix);
                    },
                    JsonItem::Other => {},
                }
                i += 1;
            }
            assert(items@.subrange(0, items@.len() as int) =~= items@);
        },
        JsonBody::Object(fields) => {
            add_fields(params, fields, &Vec::new());
        },
        JsonBody::Other => {},
    }
}

/// The text that a signature covers.
pub fn build_message(tag: &str, params: &ParamList, timestamp: u64, window: u64) -> (out: Vec<
    char,
>)
    ensures
        out@ == signing_message(tag@, params@, timestamp, window),
{
    let mut out = to_chars("instruction=");
    append_str(&mut out, tag);
    let ghost head = out@;
    let mut i: usize = 0;
    assert(params@.subrange(0, 0) =~= Seq::<Pair>::empty());
    assert(head + joined(Seq::<Pair>::empty()) =~= head);
    while i < params.len()
        invariant
            i <= params@.len(),
            out@ == head + joined(params@.subrange(0, i as int)),
        decreases params@.len() - i,
    {
        let ghost before = out@;
        append_str(&mut out, "&");
        append(&mut out, params.key(i));
        append_str(&mut out, "=");
        append(&mut out, params.value(i));
        proof {
            let upto = params@.subrange(0, i + 1);
            assert(upto.drop_last() =~= params@.subrange(0, i as int));
            assert(upto.last() == params@[i as int]);
            assert(out@ =~= head + joined(upto));
        }
        i += 1;
    }
    assert(params@.subrange(0, params@.len() as int) =~= params@);
    let ghost body = out@;
    append_str(&mut out, "&timestamp=");
    append(&mut out, &decimal_chars(timestamp));
    append_str(&mut out, "&window=");
    append(&mut out, &decimal_chars(window));
    assert(out@ =~= body + message_tail(timestamp, window));
    out
}

/// The length of a signature in base64.
pub const SIGNATURE_TEXT_LENGTH: usize = 88;

/// Signs `message` with `secret` and writes the signature in base64, which
/// takes 88 characters.
pub fn sign_message(secret: &Vec<u8>, message: &Vec<char>) -> (out: String)
    requires
        secret@.len() == SECRET_KEY_LENGTH,
    ensures
        out@ == signature_text(secret@, message@),
        out@.len() == SIGNATURE_TEXT_LENGTH,
{
    let text = from_chars(message);
    let bytes = text.as_str().as_bytes_vec();
    let signature = sign_bytes(secret, &bytes);
    encode_base64(&signature)
}

/// A batch of one object is signed as that object alone would be: no index
/// follows its keys.
pub proof fn lemma_single_batch(params: Seq<Pair>, batch: Vec<JsonItem>, fields: Vec<JsonField>)
    requires
        batch@ == seq![JsonItem::Object(fields)],
    ensures
        with_body(params, JsonBody::List(batch)) == with_body(params, JsonBody::Object(fields)),
{
    assert(batch@.drop_last() =~= Seq::<JsonItem>::empty());
    assert(batch@.last() == JsonItem::Object(fields));
    assert(with_items(params, batch@.drop_last(), 1) == params);
    assert(with_items(params, batch@, 1) == with_fields(params, fields@, index_suffix(0, 1)));
}

/// In a batch of two or more, the keys of the element at `index` are
/// followed by the index in square brackets.
pub proof fn lemma_batch_index(params: Seq<Pair>, fields: Seq<JsonField>, index: nat, count: nat)
    requires
        count > 1,
    ensures
        with_fields(params, fields, index_suffix(index, count)) == with_fields(
            params,
            fields,
            "["@ + decimal(index) + "]"@,
        ),
{
}

/// Two texts that agree around a middle part agree in it.
pub proof fn lemma_same_middle(
    head: Seq<char>,
    a: Seq<char>,
    b: Seq<char>,
    tail: Seq<char>,
)
    requires
        head + a + tail == head + b + tail,
    ensures
        a == b,
{
    let x = head + a + tail;
    let y = head + b + tail;
    assert(x.len() == y.len());
    assert(a =~= x.subrange(head.len() as int, (head.len() + a.len()) as int));
    assert(b =~= y.subrange(head.len() as int, (head.len() + b.len()) as int));
}

/// Another value for one parameter gives another run of parameters.
pub proof fn lemma_value_changes_joined(params: Seq<Pair>, i: int, value: Seq<char>)
    requires
        0 <= i < params.len(),
        value != params[i].1,
    ensures
        joined(params.update(i, (params[i].0, value))) != joined(params),
    decreases params.len(),
{
    let changed = params.update(i, (params[i].0, value));
    let none = Seq::<char>::empty();
    if i == params.len() - 1 {
        assert(changed.drop_last() =~= params.drop_last());
        let head = joined(params.drop_last()) + "&"@ + params[i].0 + "="@;
        assert(joined(params) =~= head + params[i].1 + none);
        assert(joined(changed) =~= head + value + none);
        if joined(changed) == joined(params) {
            lemma_same_middle(head, value, params[i].1, none);
        }
    } else {
        assert(changed.drop_last() =~= params.drop_last().update(i, (params[i].0, value)));
        lemma_value_changes_joined(params.drop_last(), i, value);
        let last = params.last();
        let tail = "&"@ + last.0 + "="@ + last.1;
        assert(joined(params) =~= none + joined(params.drop_last()) + tail);
        assert(joined(changed) =~= none + joined(changed.drop_last()) + tail);
        if joined(changed) == joined(params) {
            lemma_same_middle(none, joined(changed.drop_last()), joined(params.drop_last()), tail);
        }
    }
}

/// With the instruction, the other parameters, the timestamp and the window
/// unchanged, another value for one parameter gives another signed text.
pub proof fn lemma_value_changes_message(
    tag: Seq<char>,
    params: Seq<Pair>,
    i: int,
    value: Seq<char>,
    timestamp: u64,
    window: u64,
)
    requires
        0 <= i < params.len(),
        value != params[i].1,
    ensures
        signing_message(tag, params.update(i, (params[i].0, value)), timestamp, window)
            != signing_message(tag, params, timestamp, window),
{
    let changed = params.update(i, (params[i].0, value));
    lemma_value_changes_joined(params, i, value);
    if signing_message(tag, changed, timestamp, window) == signing_message(
        tag,
        params,
        timestamp,
        window,
    ) {
        lemma_same_middle(
            "instruction="@ + tag,
            joined(changed),
            joined(params),
            message_tail(timestamp, window),
        );
    }
}

} // verus!
