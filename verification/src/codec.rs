//! The indexed text codec: splitting wire text into tag/value token
//! pairs and joining them back, with the separator configuration a
//! record type declares.
//!
//! In alternating mode one separator delimits a flat
//! `tag value tag value ...` token list; in dual-separator mode a
//! distinct character separates a tag from its value inside each
//! field.  Tags parse as unsigned integers; a malformed structure or
//! a non-numeric tag is a tokenization error.

use vstd::prelude::*;

use crate::error::DecodeError;
use crate::text::{
    chars_to_string, dec_str, is_digit, parse_u64, parse_u64_spec, push_char, str_to_chars,
    u64_to_string,
};

verus! {

/// The separators a record type declares: the inter-field separator
/// and, when dual-separator mode is on, the tag/value separator.
#[derive(Debug, Clone, Copy, PartialEq, Eq, Structural)]
pub struct SeparatorConfig {
    /// The character between consecutive tokens or fields.
    pub inter_field: char,
    /// The character between a tag and its value inside one field;
    /// absent in alternating mode.
    pub tag_value: Option<char>,
}

/// Whether `sep` occurs nowhere in `t`.
pub open spec fn has_no_sep(t: Seq<char>, sep: char) -> bool {
    forall|i: int| 0 <= i < t.len() ==> #[trigger] t[i] != sep
}

/// The views of a vector of strings.
pub open spec fn str_views(v: Seq<String>) -> Seq<Seq<char>> {
    Seq::new(v.len(), |i: int| v[i]@)
}

/// The views of a vector of tag/value pairs.
pub open spec fn pairs_view(v: Seq<(u64, String)>) -> Seq<(u64, Seq<char>)> {
    Seq::new(v.len(), |i: int| (v[i].0, v[i].1@))
}

/// Splitting `s` at every occurrence of `sep`: always at least one
/// token, possibly empty.
pub open spec fn split_spec(s: Seq<char>, sep: char) -> Seq<Seq<char>>
    decreases s.len(),
{
    if s.len() == 0 {
        seq![Seq::empty()]
    } else {
        let rest = split_spec(s.drop_first(), sep);
        if s[0] == sep {
            seq![Seq::<char>::empty()] + rest
        } else {
            seq![seq![s[0]] + rest[0]] + rest.drop_first()
        }
    }
}

/// Joining tokens with `sep` between consecutive ones.
pub open spec fn join_spec(ts: Seq<Seq<char>>, sep: char) -> Seq<char>
    decreases ts.len(),
{
    if ts.len() == 0 {
        Seq::empty()
    } else if ts.len() == 1 {
        ts[0]
    } else {
        ts[0] + seq![sep] + join_spec(ts.drop_first(), sep)
    }
}

/// Reading a flat token list as tag/value pairs: fails on an odd
/// token count or a tag that is not an unsigned integer.
pub open spec fn pairs_of(tokens: Seq<Seq<char>>) -> Option<Seq<(u64, Seq<char>)>>
    decreases tokens.len(),
{
    if tokens.len() == 0 {
        Some(Seq::empty())
    } else if tokens.len() == 1 {
        None
    } else {
        match parse_u64_spec(tokens[0]) {
            Option::None => None,
            Option::Some(tag) => match pairs_of(tokens.subrange(2, tokens.len() as int)) {
                Option::None => None,
                Option::Some(ps) => Some(seq![(tag, tokens[1])] + ps),
            },
        }
    }
}

/// Splitting one field at the first occurrence of `sep`, when there
/// is one.
pub open spec fn split_once_spec(t: Seq<char>, sep: char) -> Option<(Seq<char>, Seq<char>)>
    decreases t.len(),
{
    if t.len() == 0 {
        None
    } else if t[0] == sep {
        Some((Seq::empty(), t.drop_first()))
    } else {
        match split_once_spec(t.drop_first(), sep) {
            Option::None => None,
            Option::Some(p) => Some((seq![t[0]] + p.0, p.1)),
        }
    }
}

/// Reading whole fields as tag/value pairs in dual-separator mode:
/// each field must hold the tag/value separator and a numeric tag
/// before it.
pub open spec fn pairs_of_dual(fields: Seq<Seq<char>>, tv: char) -> Option<
    Seq<(u64, Seq<char>)>,
>
    decreases fields.len(),
{
    if fields.len() == 0 {
        Some(Seq::empty())
    } else {
        match split_once_spec(fields[0], tv) {
            Option::None => None,
            Option::Some(p) => match parse_u64_spec(p.0) {
                Option::None => None,
                Option::Some(tag) => match pairs_of_dual(fields.drop_first(), tv) {
                    Option::None => None,
                    Option::Some(ps) => Some(seq![(tag, p.1)] + ps),
                },
            },
        }
    }
}

/// What tokenizing wire text under a separator configuration yields:
/// the tag/value pairs in input order, or nothing on a malformed
/// structure.
pub open spec fn tokenize_spec(s: Seq<char>, cfg: SeparatorConfig) -> Option<
    Seq<(u64, Seq<char>)>,
> {
    match cfg.tag_value {
        Option::None => pairs_of(split_spec(s, cfg.inter_field)),
        Option::Some(tv) => pairs_of_dual(split_spec(s, cfg.inter_field), tv),
    }
}

/// The value of the first pair carrying `tag`, if any: duplicate tags
/// resolve to the earliest occurrence.
pub open spec fn lookup_spec(ps: Seq<(u64, Seq<char>)>, tag: u64) -> Option<Seq<char>>
    decreases ps.len(),
{
    if ps.len() == 0 {
        None
    } else if ps[0].0 == tag {
        Some(ps[0].1)
    } else {
        lookup_spec(ps.drop_first(), tag)
    }
}

/// The flat token list of a pair sequence: tag, value, tag, value.
pub open spec fn pairs_tokens(ps: Seq<(u64, Seq<char>)>) -> Seq<Seq<char>>
    decreases ps.len(),
{
    if ps.len() == 0 {
        Seq::empty()
    } else {
        seq![dec_str(ps[0].0 as nat), ps[0].1] + pairs_tokens(ps.drop_first())
    }
}

/// The wire text of a pair sequence in alternating mode.
pub open spec fn join_pairs(ps: Seq<(u64, Seq<char>)>, sep: char) -> Seq<char> {
    join_spec(pairs_tokens(ps), sep)
}

/// Splitting a separator-free sequence yields that one token.
pub proof fn lemma_split_no_sep(t: Seq<char>, sep: char)
    requires
        has_no_sep(t, sep),
    ensures
        split_spec(t, sep) == seq![t],
    decreases t.len(),
{
    if t.len() == 0 {
        assert(t =~= Seq::<char>::empty());
        assert(split_spec(t, sep) == seq![Seq::<char>::empty()]);
        assert(split_spec(t, sep) =~= seq![t]);
    } else {
        assert(t[0] != sep);
        lemma_split_no_sep(t.drop_first(), sep);
        let rest = split_spec(t.drop_first(), sep);
        assert(rest == seq![t.drop_first()]);
        assert(rest[0] == t.drop_first());
        assert(seq![t[0]] + rest[0] =~= t);
        assert(rest.drop_first() =~= Seq::<Seq<char>>::empty());
        assert(split_spec(t, sep) =~= seq![t]);
    }
}

/// Splitting text that begins with a separator-free token, the
/// separator, and arbitrary rest gives that token and the split of
/// the rest.
pub proof fn lemma_split_head(t: Seq<char>, rest: Seq<char>, sep: char)
    requires
        has_no_sep(t, sep),
    ensures
        split_spec(t + seq![sep] + rest, sep) == seq![t] + split_spec(rest, sep),
    decreases t.len(),
{
    let s = t + seq![sep] + rest;
    if t.len() == 0 {
        assert(t =~= Seq::<char>::empty());
        assert(s[0] == sep);
        assert(s.drop_first() =~= rest);
        assert(split_spec(s, sep) == seq![Seq::<char>::empty()] + split_spec(s.drop_first(), sep));
        assert(split_spec(s, sep) =~= seq![t] + split_spec(rest, sep));
    } else {
        lemma_split_head(t.drop_first(), rest, sep);
        assert(s[0] == t[0]);
        assert(t[0] != sep);
        assert(s.drop_first() =~= t.drop_first() + seq![sep] + rest);
        let r = split_spec(s.drop_first(), sep);
        assert(r == seq![t.drop_first()] + split_spec(rest, sep));
        assert(r[0] == t.drop_first());
        assert(seq![s[0]] + r[0] =~= t);
        assert(r.drop_first() =~= split_spec(rest, sep));
        assert(split_spec(s, sep) == seq![seq![s[0]] + r[0]] + r.drop_first());
        assert(seq![seq![s[0]] + r[0]] =~~= seq![t]);
        assert(split_spec(s, sep) =~= seq![t] + split_spec(rest, sep));
    }
}

/// Splitting inverts joining, for at least one token none of which
/// holds the separator.
pub proof fn lemma_split_join(ts: Seq<Seq<char>>, sep: char)
    requires
        ts.len() >= 1,
        forall|i: int| 0 <= i < ts.len() ==> has_no_sep(#[trigger] ts[i], sep),
    ensures
        split_spec(join_spec(ts, sep), sep) == ts,
    decreases ts.len(),
{
    if ts.len() == 1 {
        lemma_split_no_sep(ts[0], sep);
        assert(seq![ts[0]] =~= ts);
    } else {
        lemma_split_join(ts.drop_first(), sep);
        assert(join_spec(ts, sep) == ts[0] + seq![sep] + join_spec(ts.drop_first(), sep));
        lemma_split_head(ts[0], join_spec(ts.drop_first(), sep), sep);
        assert(seq![ts[0]] + ts.drop_first() =~= ts);
    }
}

/// Reading the flat tokens of a pair sequence gives the pairs back.
pub proof fn lemma_pairs_roundtrip(ps: Seq<(u64, Seq<char>)>)
    ensures
        pairs_of(pairs_tokens(ps)) == Some(ps),
    decreases ps.len(),
{
    if ps.len() == 0 {
        assert(pairs_tokens(ps) =~= Seq::<Seq<char>>::empty());
        assert(pairs_of(pairs_tokens(ps)) =~= Some(ps));
    } else {
        lemma_pairs_roundtrip(ps.drop_first());
        let tokens = pairs_tokens(ps);
        crate::text::lemma_parse_dec_str_u64(ps[0].0);
        assert(tokens.len() == 2 + pairs_tokens(ps.drop_first()).len()) by {
            lemma_pairs_tokens_len(ps.drop_first());
            lemma_pairs_tokens_len(ps);
        }
        assert(tokens[0] == dec_str(ps[0].0 as nat));
        assert(tokens[1] == ps[0].1);
        assert(tokens.subrange(2, tokens.len() as int) =~= pairs_tokens(ps.drop_first()));
        assert(seq![(ps[0].0, ps[0].1)] + ps.drop_first() =~= ps);
    }
}

/// A pair sequence flattens to twice as many tokens.
pub proof fn lemma_pairs_tokens_len(ps: Seq<(u64, Seq<char>)>)
    ensures
        pairs_tokens(ps).len() == 2 * ps.len(),
    decreases ps.len(),
{
    if ps.len() > 0 {
        lemma_pairs_tokens_len(ps.drop_first());
    }
}

/// Every flat token of a pair sequence is free of `sep` when the
/// values are and `sep` is not a digit.
pub proof fn lemma_pairs_tokens_no_sep(ps: Seq<(u64, Seq<char>)>, sep: char)
    requires
        !is_digit(sep),
        forall|i: int| 0 <= i < ps.len() ==> has_no_sep(#[trigger] ps[i].1, sep),
    ensures
        forall|i: int|
            0 <= i < pairs_tokens(ps).len() ==> has_no_sep(#[trigger] pairs_tokens(ps)[i], sep),
    decreases ps.len(),
{
    if ps.len() > 0 {
        assert(forall|i: int|
            0 <= i < ps.drop_first().len() ==> has_no_sep(#[trigger] ps.drop_first()[i].1, sep));
        lemma_pairs_tokens_no_sep(ps.drop_first(), sep);
        crate::text::lemma_dec_str_digits(ps[0].0 as nat);
        let tag_tok = dec_str(ps[0].0 as nat);
        assert forall|j: int| 0 <= j < tag_tok.len() implies tag_tok[j] != sep by {
            assert(is_digit(tag_tok[j]));
        }
        assert(has_no_sep(tag_tok, sep));
        let toks = pairs_tokens(ps);
        let rest_toks = pairs_tokens(ps.drop_first());
        assert(toks == seq![tag_tok, ps[0].1] + rest_toks);
        assert(has_no_sep(ps[0].1, sep));
        assert forall|i: int| 0 <= i < toks.len() implies has_no_sep(#[trigger] toks[i], sep) by {
            if i == 0 {
                assert(toks[i] == tag_tok);
            } else if i == 1 {
                assert(toks[i] == ps[0].1);
            } else {
                assert(toks[i] == rest_toks[i - 2]);
            }
        }
    }
}

/// Tokenizing inverts serializing: the wire text of a non-empty pair
/// sequence, split on a non-digit separator that no value contains,
/// reads back as exactly those pairs.
pub proof fn lemma_tokenize_join(ps: Seq<(u64, Seq<char>)>, sep: char)
    requires
        ps.len() >= 1,
        !is_digit(sep),
        forall|i: int| 0 <= i < ps.len() ==> has_no_sep(#[trigger] ps[i].1, sep),
    ensures
        pairs_of(split_spec(join_pairs(ps, sep), sep)) == Some(ps),
{
    lemma_pairs_tokens_no_sep(ps, sep);
    lemma_pairs_tokens_len(ps);
    lemma_split_join(pairs_tokens(ps), sep);
    lemma_pairs_roundtrip(ps);
}

/// Looking a tag up ignores an inserted pair carrying a different
/// tag, wherever it is inserted.
pub proof fn lemma_lookup_insert_irrelevant(
    ps: Seq<(u64, Seq<char>)>,
    k: int,
    extra: (u64, Seq<char>),
    tag: u64,
)
    requires
        0 <= k <= ps.len(),
        extra.0 != tag,
    ensures
        lookup_spec(ps.insert(k, extra), tag) == lookup_spec(ps, tag),
    decreases ps.len(),
{
    let with = ps.insert(k, extra);
    if k == 0 {
        assert(with[0] == extra);
        assert(with.drop_first() =~= ps);
    } else {
        assert(with[0] == ps[0]);
        if ps[0].0 == tag {
        } else {
            assert(with.drop_first() =~= ps.drop_first().insert(k - 1, extra));
            lemma_lookup_insert_irrelevant(ps.drop_first(), k - 1, extra, tag);
        }
    }
}

/// Appending one pair extends the wire text on the right: with a
/// leading separator when pairs precede it, bare otherwise.
pub proof fn lemma_join_pairs_push(ps: Seq<(u64, Seq<char>)>, p: (u64, Seq<char>), sep: char)
    ensures
        ps.len() == 0 ==> join_pairs(ps.push(p), sep) == dec_str(p.0 as nat) + seq![sep] + p.1,
        ps.len() > 0 ==> join_pairs(ps.push(p), sep) == join_pairs(ps, sep) + seq![sep] + dec_str(
            p.0 as nat,
        ) + seq![sep] + p.1,
    decreases ps.len(),
{
    if ps.len() == 0 {
        assert(ps.push(p)[0] == p);
        assert(ps.push(p).drop_first() =~= Seq::<(u64, Seq<char>)>::empty());
        let tokens = pairs_tokens(ps.push(p));
        assert(tokens == seq![dec_str(ps.push(p)[0].0 as nat), ps.push(p)[0].1] + pairs_tokens(
            ps.push(p).drop_first(),
        ));
        assert(tokens =~~= seq![dec_str(p.0 as nat), p.1]);
        assert(tokens.drop_first() =~~= seq![p.1]);
        assert(tokens.len() == 2);
        assert(join_spec(tokens.drop_first(), sep) == p.1);
        assert(join_spec(tokens, sep) == tokens[0] + seq![sep] + join_spec(
            tokens.drop_first(),
            sep,
        ));
        assert(join_spec(tokens, sep) == dec_str(p.0 as nat) + seq![sep] + p.1);
    } else {
        lemma_join_pairs_push(ps.drop_first(), p, sep);
        assert(ps.push(p)[0] == ps[0]);
        assert(ps.push(p).drop_first() =~= ps.drop_first().push(p));
        let head = seq![dec_str(ps[0].0 as nat), ps[0].1];
        assert(pairs_tokens(ps.push(p)) == head + pairs_tokens(ps.drop_first().push(p)));
        assert(pairs_tokens(ps) == head + pairs_tokens(ps.drop_first()));
        lemma_pairs_tokens_len(ps.drop_first().push(p));
        lemma_pairs_tokens_len(ps.drop_first());
        lemma_join_two_tokens_front(
            dec_str(ps[0].0 as nat),
            ps[0].1,
            pairs_tokens(ps.drop_first().push(p)),
            sep,
        );
        lemma_join_two_tokens_front(
            dec_str(ps[0].0 as nat),
            ps[0].1,
            pairs_tokens(ps.drop_first()),
            sep,
        );
        if ps.drop_first().len() == 0 {
            assert(pairs_tokens(ps.drop_first()) =~= Seq::<Seq<char>>::empty());
            assert(join_pairs(ps, sep) == dec_str(ps[0].0 as nat) + seq![sep] + ps[0].1);
            assert(join_pairs(ps.push(p), sep) =~= join_pairs(ps, sep) + seq![sep] + dec_str(
                p.0 as nat,
            ) + seq![sep] + p.1);
        } else {
            assert(join_pairs(ps.push(p), sep) =~= join_pairs(ps, sep) + seq![sep] + dec_str(
                p.0 as nat,
            ) + seq![sep] + p.1);
        }
    }
}

/// Joining two tokens in front of a token list: the rest joins after
/// a separator when non-empty.
pub proof fn lemma_join_two_tokens_front(a: Seq<char>, b: Seq<char>, rest: Seq<Seq<char>>, sep: char)
    ensures
        rest.len() == 0 ==> join_spec(seq![a, b] + rest, sep) == a + seq![sep] + b,
        rest.len() > 0 ==> join_spec(seq![a, b] + rest, sep) == a + seq![sep] + b + seq![sep]
            + join_spec(rest, sep),
{
    let ts = seq![a, b] + rest;
    assert(ts[0] == a);
    assert(ts.drop_first() =~= seq![b] + rest);
    let ts1 = seq![b] + rest;
    assert(ts1[0] == b);
    assert(ts1.drop_first() =~= rest);
    if rest.len() == 0 {
        assert(ts.len() == 2);
        assert(ts1.len() == 1);
        assert(join_spec(ts1, sep) == b);
        assert(join_spec(ts, sep) == ts[0] + seq![sep] + join_spec(ts.drop_first(), sep));
        assert(join_spec(ts, sep) == a + seq![sep] + b);
    } else {
        assert(join_spec(ts1, sep) == b + seq![sep] + join_spec(rest, sep));
        assert(a + seq![sep] + (b + seq![sep] + join_spec(rest, sep)) =~= a + seq![sep] + b + seq![
            sep,
        ] + join_spec(rest, sep));
    }
}

/// Splits the characters from position `i` on at every `sep`.
fn split_rec(chars: &Vec<char>, i: usize, sep: char) -> (r: Vec<String>)
    requires
        i <= chars@.len(),
    ensures
        str_views(r@) == split_spec(chars@.subrange(i as int, chars@.len() as int), sep),
        r@.len() >= 1,
    decreases chars@.len() - i,
{
    let ghost s = chars@.subrange(i as int, chars@.len() as int);
    if i == chars.len() {
        let mut r: Vec<String> = Vec::new();
        r.push(String::new());
        proof {
            assert(s.len() == 0);
            assert(str_views(r@) =~= split_spec(s, sep));
        }
        r
    } else {
        let c = chars[i];
        let mut rest = split_rec(chars, i + 1, sep);
        proof {
            assert(s.drop_first() =~= chars@.subrange(i + 1, chars@.len() as int));
            assert(s[0] == chars@[i as int]);
        }
        if c == sep {
            rest.insert(0, String::new());
            proof {
                assert(str_views(rest@) =~= split_spec(s, sep));
            }
            rest
        } else {
            let mut head = String::new();
            push_char(&mut head, c);
            head.append(rest[0].as_str());
            rest.set(0, head);
            proof {
                let old_views = split_spec(s.drop_first(), sep);
                assert(str_views(rest@)[0] == seq![s[0]] + old_views[0]);
                assert(str_views(rest@).drop_first() =~= old_views.drop_first());
                assert(str_views(rest@) =~= split_spec(s, sep));
            }
            rest
        }
    }
}

/// Reads the token list from position `i` on as alternating
/// tag/value pairs.
fn pairs_rec(tokens: &Vec<String>, i: usize) -> (r: Result<Vec<(u64, String)>, DecodeError>)
    requires
        i <= tokens@.len(),
    ensures
        match (r, pairs_of(str_views(tokens@).subrange(i as int, tokens@.len() as int))) {
            (Result::Ok(v), Option::Some(ps)) => pairs_view(v@) == ps,
            (Result::Err(e), Option::None) => e == DecodeError::Tokenization,
            _ => false,
        },
    decreases tokens@.len() - i,
{
    let ghost ts = str_views(tokens@).subrange(i as int, tokens@.len() as int);
    if i == tokens.len() {
        let r: Vec<(u64, String)> = Vec::new();
        proof {
            assert(pairs_view(r@) =~= Seq::<(u64, Seq<char>)>::empty());
            assert(ts.len() == 0);
        }
        Ok(r)
    } else if tokens.len() - i == 1 {
        proof {
            assert(ts.len() == 1);
        }
        Err(DecodeError::Tokenization)
    } else {
        let tag_chars = str_to_chars(tokens[i].as_str());
        proof {
            assert(ts[0] == tokens@[i as int]@);
            assert(ts[1] == tokens@[i + 1]@);
            assert(ts.subrange(2, ts.len() as int) =~= str_views(tokens@).subrange(
                i + 2,
                tokens@.len() as int,
            ));
        }
        match parse_u64(&tag_chars) {
            Option::None => Err(DecodeError::Tokenization),
            Option::Some(tag) => {
                let value = tokens[i + 1].clone();
                match pairs_rec(tokens, i + 2) {
                    Err(e) => Err(e),
                    Ok(mut ps) => {
                        ps.insert(0, (tag, value));
                        proof {
                            let full = pairs_of(ts)->Some_0;
                            assert(pairs_view(ps@) =~= full);
                        }
                        Ok(ps)
                    },
                }
            },
        }
    }
}

/// Splits one field at its first `sep`, when it has one.
fn split_once_exec(t: &str, sep: char) -> (r: Option<(String, String)>)
    ensures
        match (r, split_once_spec(t@, sep)) {
            (Option::Some(p), Option::Some(q)) => p.0@ == q.0 && p.1@ == q.1,
            (Option::None, Option::None) => true,
            _ => false,
        },
{
    let chars = str_to_chars(t);
    proof {
        lemma_split_once_start(t@, sep);
    }
    let mut i: usize = 0;
    while i < chars.len()
        invariant
            chars@ == t@,
            i <= t@.len(),
            forall|j: int| 0 <= j < i ==> t@[j] != sep,
            split_once_spec(t@, sep) == split_once_from(t@, i as int, sep),
        decreases t@.len() - i,
    {
        if chars[i] == sep {
            let mut front: Vec<char> = Vec::new();
            let mut j: usize = 0;
            while j < i
                invariant
                    j <= i <= chars@.len(),
                    front@ == chars@.take(j as int),
                decreases i - j,
            {
                front.push(chars[j]);
                j += 1;
                assert(front@ =~= chars@.take(j as int));
            }
            let mut back: Vec<char> = Vec::new();
            let mut k: usize = i + 1;
            while k < chars.len()
                invariant
                    i + 1 <= k <= chars@.len(),
                    back@ == chars@.subrange(i + 1, k as int),
                decreases chars@.len() - k,
            {
                back.push(chars[k]);
                k += 1;
                assert(back@ =~= chars@.subrange(i + 1, k as int));
            }
            proof {
                assert(back@ =~= chars@.subrange(i + 1, chars@.len() as int));
                lemma_split_once_at(t@, i as int, sep);
            }
            return Some((chars_to_string(&front), chars_to_string(&back)));
        }
        proof {
            lemma_split_once_step(t@, i as int, sep);
        }
        i += 1;
    }
    proof {
        lemma_split_once_none(t@, i as int, sep);
    }
    None
}

/// What scanning for the separator from position `i` on yields, with
/// the prefix before `i` kept.
pub open spec fn split_once_from(t: Seq<char>, i: int, sep: char) -> Option<
    (Seq<char>, Seq<char>),
>
    recommends
        0 <= i <= t.len(),
        forall|j: int| 0 <= j < i ==> t[j] != sep,
{
    match split_once_spec(t.subrange(i, t.len() as int), sep) {
        Option::None => None,
        Option::Some(p) => Some((t.take(i) + p.0, p.1)),
    }
}

/// Scanning past a non-separator character keeps the result.
proof fn lemma_split_once_step(t: Seq<char>, i: int, sep: char)
    requires
        0 <= i < t.len(),
        t[i] != sep,
    ensures
        split_once_from(t, i, sep) == split_once_from(t, i + 1, sep),
{
    let suf = t.subrange(i, t.len() as int);
    assert(suf[0] == t[i]);
    assert(suf.drop_first() =~= t.subrange(i + 1, t.len() as int));
    match split_once_spec(suf.drop_first(), sep) {
        Option::None => {
        },
        Option::Some(p) => {
            assert(t.take(i) + (seq![suf[0]] + p.0) =~= t.take(i + 1) + p.0);
        },
    }
}

/// Finding the separator at position `i` fixes the result.
proof fn lemma_split_once_at(t: Seq<char>, i: int, sep: char)
    requires
        0 <= i < t.len(),
        t[i] == sep,
    ensures
        split_once_from(t, i, sep) == Some(
            (t.take(i), t.subrange(i + 1, t.len() as int)),
        ),
{
    let suf = t.subrange(i, t.len() as int);
    assert(suf[0] == sep);
    assert(suf.drop_first() =~= t.subrange(i + 1, t.len() as int));
    assert(t.take(i) + Seq::<char>::empty() =~= t.take(i));
}

/// Reaching the end without the separator means there is none.
proof fn lemma_split_once_none(t: Seq<char>, i: int, sep: char)
    requires
        i == t.len(),
    ensures
        split_once_from(t, i, sep) is None,
{
    assert(t.subrange(i, t.len() as int).len() == 0);
}

/// Scanning from the start is the plain split.
proof fn lemma_split_once_start(t: Seq<char>, sep: char)
    ensures
        split_once_from(t, 0, sep) == split_once_spec(t, sep),
{
    assert(t.subrange(0, t.len() as int) =~= t);
    match split_once_spec(t, sep) {
        Option::None => {
        },
        Option::Some(p) => {
            assert(t.take(0) + p.0 =~= p.0);
        },
    }
}

/// Reads whole fields from position `i` on as dual-separator
/// tag/value pairs.
fn pairs_dual_rec(fields: &Vec<String>, i: usize, tv: char) -> (r: Result<
    Vec<(u64, String)>,
    DecodeError,
>)
    requires
        i <= fields@.len(),
    ensures
        match (
            r,
            pairs_of_dual(str_views(fields@).subrange(i as int, fields@.len() as int), tv),
        ) {
            (Result::Ok(v), Option::Some(ps)) => pairs_view(v@) == ps,
            (Result::Err(e), Option::None) => e == DecodeError::Tokenization,
            _ => false,
        },
    decreases fields@.len() - i,
{
    let ghost fs = str_views(fields@).subrange(i as int, fields@.len() as int);
    if i == fields.len() {
        let r: Vec<(u64, String)> = Vec::new();
        proof {
            assert(pairs_view(r@) =~= Seq::<(u64, Seq<char>)>::empty());
            assert(fs.len() == 0);
        }
        return Ok(r);
    }
    proof {
        assert(fs[0] == fields@[i as int]@);
        assert(fs.drop_first() =~= str_views(fields@).subrange(i + 1, fields@.len() as int));
    }
    let (tag_text, value) = match split_once_exec(fields[i].as_str(), tv) {
        Option::None => {
            return Err(DecodeError::Tokenization);
        },
        Option::Some(p) => p,
    };
    let tag_chars = str_to_chars(tag_text.as_str());
    let tag = match parse_u64(&tag_chars) {
        Option::None => {
            return Err(DecodeError::Tokenization);
        },
        Option::Some(tag) => tag,
    };
    match pairs_dual_rec(fields, i + 1, tv) {
        Err(e) => Err(e),
        Ok(mut ps) => {
            ps.insert(0, (tag, value));
            proof {
                let full = pairs_of_dual(fs, tv)->Some_0;
                assert(pairs_view(ps@) =~= full);
            }
            Ok(ps)
        },
    }
}

/// Tokenizes wire text under a separator configuration into
/// tag/value pairs, exactly as [`tokenize_spec`] describes; the
/// error is a tokenization error precisely when the structure is
/// malformed.
pub fn tokenize(s: &str, cfg: SeparatorConfig) -> (r: Result<Vec<(u64, String)>, DecodeError>)
    ensures
        match (r, tokenize_spec(s@, cfg)) {
            (Result::Ok(v), Option::Some(ps)) => pairs_view(v@) == ps,
            (Result::Err(e), Option::None) => e == DecodeError::Tokenization,
            _ => false,
        },
{
    let chars = str_to_chars(s);
    let tokens = split_rec(&chars, 0, cfg.inter_field);
    proof {
        assert(chars@.subrange(0, chars@.len() as int) =~= s@);
        assert(str_views(tokens@).subrange(0, tokens@.len() as int) =~= str_views(tokens@));
    }
    match cfg.tag_value {
        Option::None => pairs_rec(&tokens, 0),
        Option::Some(tv) => pairs_dual_rec(&tokens, 0, tv),
    }
}

/// Finds the first pair carrying `tag`, returning its index;
/// duplicate tags resolve to the earliest occurrence, exactly as
/// [`lookup_spec`] describes.
pub fn lookup(ps: &Vec<(u64, String)>, tag: u64) -> (r: Option<usize>)
    ensures
        match r {
            Option::Some(i) => i < ps@.len() && ps@[i as int].0 == tag && lookup_spec(
                pairs_view(ps@),
                tag,
            ) == Some(ps@[i as int].1@),
            Option::None => lookup_spec(pairs_view(ps@), tag) is None,
        },
{
    let ghost view = pairs_view(ps@);
    proof {
        assert(view.subrange(0, view.len() as int) =~= view);
    }
    let mut i: usize = 0;
    while i < ps.len()
        invariant
            i <= view.len(),
            view.len() == ps@.len(),
            view == pairs_view(ps@),
            lookup_spec(view, tag) == lookup_spec(
                view.subrange(i as int, view.len() as int),
                tag,
            ),
        decreases view.len() - i,
    {
        let ghost suf = view.subrange(i as int, view.len() as int);
        proof {
            assert(pairs_view(ps@)[i as int] == (ps@[i as int].0, ps@[i as int].1@));
            assert(suf[0] == view[i as int]);
            assert(suf.drop_first() =~= view.subrange(i + 1, view.len() as int));
        }
        if ps[i].0 == tag {
            proof {
                assert(suf.len() > 0);
                assert(suf[0].0 == tag);
                assert(lookup_spec(suf, tag) == Some(suf[0].1));
            }
            return Some(i);
        }
        proof {
            assert(suf[0].0 != tag);
            assert(lookup_spec(suf, tag) == lookup_spec(suf.drop_first(), tag));
        }
        i += 1;
    }
    proof {
        assert(view.subrange(i as int, view.len() as int).len() == 0);
    }
    None
}

/// Appends the wire text of `ps` to `out`: tags and values joined
/// with `sep` in alternating mode, continuing with a separator when
/// `out` already ends with earlier pairs of the same record.
pub fn write_pairs(out: &mut String, ps: &Vec<(u64, String)>, sep: char)
    requires
        old(out)@.len() == 0,
    ensures
        final(out)@ == join_pairs(pairs_view(ps@), sep),
{
    let ghost view = pairs_view(ps@);
    proof {
        assert(out@ =~= Seq::<char>::empty());
        assert(view.take(0) =~= Seq::<(u64, Seq<char>)>::empty());
        assert(pairs_tokens(view.take(0)) == Seq::<Seq<char>>::empty());
        assert(join_pairs(view.take(0), sep) == Seq::<char>::empty());
    }
    let mut i: usize = 0;
    while i < ps.len()
        invariant
            i <= view.len(),
            view.len() == ps@.len(),
            view == pairs_view(ps@),
            out@ == join_pairs(view.take(i as int), sep),
        decreases view.len() - i,
    {
        let ghost jp = join_pairs(view.take(i as int), sep);
        proof {
            assert(pairs_view(ps@)[i as int] == (ps@[i as int].0, ps@[i as int].1@));
            lemma_join_pairs_push(view.take(i as int), view[i as int], sep);
            assert(view.take(i as int).push(view[i as int]) =~= view.take(i + 1));
        }
        if i > 0 {
            push_char(out, sep);
        }
        let tag_text = u64_to_string(ps[i].0);
        out.append(tag_text.as_str());
        push_char(out, sep);
        out.append(ps[i].1.as_str());
        proof {
            assert(tag_text@ == dec_str(view[i as int].0 as nat));
            assert(ps@[i as int].1@ == view[i as int].1);
            if i == 0 {
                assert(view.take(0).len() == 0);
                assert(jp == Seq::<char>::empty());
                assert(out@ =~= jp + dec_str(view[0].0 as nat) + seq![sep] + view[0].1);
                assert(jp + dec_str(view[0].0 as nat) =~= dec_str(view[0].0 as nat));
                assert(join_pairs(view.take(1), sep) == dec_str(view[0].0 as nat) + seq![sep]
                    + view[0].1);
                assert(out@ =~= join_pairs(view.take(1), sep));
            } else {
                assert(view.take(i as int).len() > 0);
                assert(join_pairs(view.take(i + 1), sep) == jp + seq![sep] + dec_str(
                    view[i as int].0 as nat,
                ) + seq![sep] + view[i as int].1);
                assert(out@ =~= join_pairs(view.take(i + 1), sep));
            }
        }
        i += 1;
    }
    proof {
        assert(view.take(view.len() as int) =~= view);
    }
}


/// Looking a tag up in a concatenation falls through to the second
/// part exactly when the first has no pair with that tag.
pub proof fn lemma_lookup_append(a: Seq<(u64, Seq<char>)>, b: Seq<(u64, Seq<char>)>, tag: u64)
    ensures
        lookup_spec(a + b, tag) == if lookup_spec(a, tag) is Some {
            lookup_spec(a, tag)
        } else {
            lookup_spec(b, tag)
        },
    decreases a.len(),
{
    if a.len() == 0 {
        assert(a + b =~= b);
    } else {
        assert((a + b)[0] == a[0]);
        assert((a + b).len() > 0);
        assert((a + b).drop_first() =~= a.drop_first() + b);
        lemma_lookup_append(a.drop_first(), b, tag);
    }
}

/// Splits `s` at every occurrence of `sep`, exactly as
/// [`split_spec`] describes.
pub fn split_text(s: &str, sep: char) -> (r: Vec<String>)
    ensures
        str_views(r@) == split_spec(s@, sep),
        r@.len() >= 1,
{
    let chars = str_to_chars(s);
    let r = split_rec(&chars, 0, sep);
    proof {
        assert(chars@.subrange(0, chars@.len() as int) =~= s@);
    }
    r
}

/// What parsing a boolean encoded as `"1"` or `"0"` yields.
pub open spec fn parse_bool01_spec(s: Seq<char>) -> Option<bool> {
    if s.len() == 1 && s[0] == '1' {
        Some(true)
    } else if s.len() == 1 && s[0] == '0' {
        Some(false)
    } else {
        None
    }
}

/// The `"1"`/`"0"` encoding of a boolean.
pub open spec fn bool01_text_spec(b: bool) -> Seq<char> {
    if b {
        seq!['1']
    } else {
        seq!['0']
    }
}

/// What parsing a boolean encoded as `"2"` or `"0"` yields; some
/// fields spell their true value this way.
pub open spec fn parse_bool20_spec(s: Seq<char>) -> Option<bool> {
    if s.len() == 1 && s[0] == '2' {
        Some(true)
    } else if s.len() == 1 && s[0] == '0' {
        Some(false)
    } else {
        None
    }
}

/// The `"2"`/`"0"` encoding of a boolean.
pub open spec fn bool20_text_spec(b: bool) -> Seq<char> {
    if b {
        seq!['2']
    } else {
        seq!['0']
    }
}

/// Parses a `"1"`/`"0"` boolean, exactly as [`parse_bool01_spec`]
/// describes.
pub fn parse_bool01(s: &str) -> (r: Option<bool>)
    ensures
        r == parse_bool01_spec(s@),
{
    let chars = str_to_chars(s);
    if chars.len() == 1 && chars[0] == '1' {
        Some(true)
    } else if chars.len() == 1 && chars[0] == '0' {
        Some(false)
    } else {
        None
    }
}

/// Parses a `"2"`/`"0"` boolean, exactly as [`parse_bool20_spec`]
/// describes.
pub fn parse_bool20(s: &str) -> (r: Option<bool>)
    ensures
        r == parse_bool20_spec(s@),
{
    let chars = str_to_chars(s);
    if chars.len() == 1 && chars[0] == '2' {
        Some(true)
    } else if chars.len() == 1 && chars[0] == '0' {
        Some(false)
    } else {
        None
    }
}

/// Writes a `"1"`/`"0"` boolean.
pub fn bool01_text(b: bool) -> (r: String)
    ensures
        r@ == bool01_text_spec(b),
{
    let mut r = String::new();
    if b {
        push_char(&mut r, '1');
    } else {
        push_char(&mut r, '0');
    }
    proof {
        assert(r@ =~= bool01_text_spec(b));
    }
    r
}

/// Writes a `"2"`/`"0"` boolean.
pub fn bool20_text(b: bool) -> (r: String)
    ensures
        r@ == bool20_text_spec(b),
{
    let mut r = String::new();
    if b {
        push_char(&mut r, '2');
    } else {
        push_char(&mut r, '0');
    }
    proof {
        assert(r@ =~= bool20_text_spec(b));
    }
    r
}

} // verus!
