//! Symbol notation: the engine writes `BTC/USDT`, the exchange writes
//! `BTC_USDC_PERP` for the perpetual contract it trades against USDC.

use crate::text::{
    append_str, char_replaced, end_trimmed, ends_with, from_chars, has_suffix, occurs_at,
    replace_all, replace_char, replaced, slice_of, to_chars, trim_end,
};
use vstd::prelude::*;

verus! {

/// The exchange's name for the perpetual contract of a canonical symbol:
/// `/` becomes `_`, a `_USDT` quote becomes `_USDC`, and `_PERP` is appended.
pub open spec fn exchange_symbol(canonical: Seq<char>) -> Seq<char> {
    let base = char_replaced(canonical, '/', '_');
    if has_suffix(base, "_USDT"@) {
        replaced(base, "_USDT"@, "_USDC"@) + "_PERP"@
    } else {
        base + "_PERP"@
    }
}

/// The canonical symbol of an exchange market name: a `_PERP` ending is
/// dropped, `_` becomes `/`, and a `/USDC` quote becomes `/USDT`.
pub open spec fn canonical_symbol(exchange: Seq<char>) -> Seq<char> {
    let stem = if has_suffix(exchange, "_PERP"@) {
        exchange.subrange(0, exchange.len() - "_PERP"@.len())
    } else {
        exchange
    };
    let base = char_replaced(stem, '_', '/');
    if has_suffix(base, "/USDC"@) {
        replaced(base, "/USDC"@, "/USDT"@)
    } else {
        base
    }
}

/// The symbol under which a mark-price tick is published: `_USDC` becomes
/// `_USDT`, `_` becomes `/`, and every `/PERP` at the end is dropped.
pub open spec fn display_symbol(stream_symbol: Seq<char>) -> Seq<char> {
    end_trimmed(
        char_replaced(replaced(stream_symbol, "_USDC"@, "_USDT"@), '_', '/'),
        "/PERP"@,
    )
}

/// A canonical symbol quoted in USDT: a base asset that holds neither `/`
/// nor `_`, followed by `/USDT`.
pub open spec fn is_usdt_quoted(s: Seq<char>) -> bool {
    &&& has_suffix(s, "/USDT"@)
    &&& forall|i: int| 0 <= i < s.len() - "/USDT"@.len() ==> s[i] != '/' && s[i] != '_'
}

/// `symbol` with every `_` turned into `/`.
pub fn normalize_backpack_symbol(symbol: &str) -> (out: String)
    ensures
        out@ == char_replaced(symbol@, '_', '/'),
{
    let chars = to_chars(symbol);
    from_chars(&replace_char(&chars, '_', '/'))
}

/// The exchange's market name for a canonical symbol.
pub fn convert_symbol_to_backpack(symbol: &str) -> (out: String)
    ensures
        out@ == exchange_symbol(symbol@),
{
    let chars = to_chars(symbol);
    let base = replace_char(&chars, '/', '_');
    let usdt = to_chars("_USDT");
    let mut name = if ends_with(&base, &usdt) {
        replace_all(&base, &usdt, &to_chars("_USDC"))
    } else {
        base
    };
    append_str(&mut name, "_PERP");
    from_chars(&name)
}

/// The canonical symbol of an exchange market name.
pub fn convert_symbol_from_backpack(symbol: &str) -> (out: String)
    ensures
        out@ == canonical_symbol(symbol@),
{
    let chars = to_chars(symbol);
    let perp = to_chars("_PERP");
    let stem = if ends_with(&chars, &perp) {
        slice_of(&chars, 0, chars.len() - perp.len())
    } else {
        chars
    };
    let base = replace_char(&stem, '_', '/');
    let usdc = to_chars("/USDC");
    if ends_with(&base, &usdc) {
        from_chars(&replace_all(&base, &usdc, &to_chars("/USDT")))
    } else {
        from_chars(&base)
    }
}

/// The symbol under which a tick of the stream symbol is published.
pub fn display_symbol_of(stream_symbol: &str) -> (out: String)
    ensures
        out@ == display_symbol(stream_symbol@),
{
    let chars = to_chars(stream_symbol);
    let quoted = replace_all(&chars, &to_chars("_USDC"), &to_chars("_USDT"));
    let slashed = replace_char(&quoted, '_', '/');
    from_chars(&trim_end(&slashed, &to_chars("/PERP")))
}

/// Replacing `pat` in a text that ends with it, and whose characters before
/// that never equal the first of `pat`, changes only that ending.
pub proof fn lemma_replaced_tail(head: Seq<char>, pat: Seq<char>, rep: Seq<char>)
    requires
        pat.len() > 0,
        forall|i: int| 0 <= i < head.len() ==> head[i] != pat[0],
    ensures
        replaced(head + pat, pat, rep) == head + rep,
    decreases head.len(),
{
    let s = head + pat;
    if head.len() == 0 {
        assert(s =~= pat);
        assert(pat.subrange(0, pat.len() as int) =~= pat);
        assert(pat.subrange(pat.len() as int, pat.len() as int) =~= Seq::<char>::empty());
        assert(replaced(Seq::<char>::empty(), pat, rep) =~= Seq::<char>::empty());
        assert(rep + Seq::<char>::empty() =~= head + rep);
    } else {
        assert(s[0] == head[0]);
        assert(s.subrange(0, pat.len() as int)[0] == s[0]);
        assert(!occurs_at(s, pat, 0));
        assert(s.subrange(1, s.len() as int) =~= head.drop_first() + pat);
        lemma_replaced_tail(head.drop_first(), pat, rep);
        assert(seq![s[0]] + (head.drop_first() + rep) =~= head + rep);
    }
}

/// Turning a canonical USDT-quoted symbol into the exchange's name and back
/// gives the symbol again.
pub proof fn lemma_symbol_round_trip(s: Seq<char>)
    requires
        is_usdt_quoted(s),
    ensures
        canonical_symbol(exchange_symbol(s)) == s,
{
    reveal_strlit("_USDT");
    reveal_strlit("_USDC");
    reveal_strlit("_PERP");
    reveal_strlit("/USDT");
    reveal_strlit("/USDC");
    let n = s.len() as int;
    let head = s.subrange(0, n - 5);
    assert(s.subrange(n - 5, n) == "/USDT"@);
    assert(forall|i: int| 0 <= i < 5 ==> s[n - 5 + i] == #[trigger] s.subrange(n - 5, n)[i]);
    assert(s =~= head + "/USDT"@);
    let under = char_replaced(s, '/', '_');
    assert(under =~= head + "_USDT"@);
    assert(under.subrange(under.len() - 5, under.len() as int) =~= "_USDT"@);
    lemma_replaced_tail(head, "_USDT"@, "_USDC"@);
    let name = head + "_USDC"@ + "_PERP"@;
    assert(exchange_symbol(s) == name);
    assert(name.subrange(name.len() - 5, name.len() as int) =~= "_PERP"@);
    let stem = name.subrange(0, name.len() - 5);
    assert(stem =~= head + "_USDC"@);
    let slashed = char_replaced(stem, '_', '/');
    assert(slashed =~= head + "/USDC"@);
    assert(slashed.subrange(slashed.len() - 5, slashed.len() as int) =~= "/USDC"@);
    lemma_replaced_tail(head, "/USDC"@, "/USDT"@);
}

} // verus!
