//! Encoding of module parameters into the single argument that follows `-a`.
//!
//! A parameter with a value is written `name="value"`, where a quote or a
//! backslash inside the value is preceded by a backslash; one without a value
//! is written as its bare name. Parameters with an empty name are skipped, and
//! the tokens are joined by single spaces in the order of the parameters.
use vstd::prelude::*;

verus! {

/// A parameter as the contracts see it: its name and its value.
pub type ParamView = (Seq<char>, Seq<char>);

/// How one character of a value is written between the quotes.
pub open spec fn escaped_char(c: char) -> Seq<char> {
    if c == '"' || c == '\\' {
        seq!['\\', c]
    } else {
        seq![c]
    }
}

/// A value with every quote and backslash escaped.
pub open spec fn escaped(v: Seq<char>) -> Seq<char>
    decreases v.len(),
{
    if v.len() == 0 {
        Seq::empty()
    } else {
        escaped_char(v[0]) + escaped(v.drop_first())
    }
}

/// The token written for a parameter whose name is not empty.
pub open spec fn token(name: Seq<char>, value: Seq<char>) -> Seq<char> {
    if value.len() == 0 {
        name
    } else {
        name + seq!['=', '"'] + escaped(value) + seq!['"']
    }
}

/// The tokens of the parameters with a non-empty name, joined by spaces.
pub open spec fn encoded(ps: Seq<ParamView>) -> Seq<char>
    decreases ps.len(),
{
    if ps.len() == 0 {
        Seq::empty()
    } else {
        let rest = encoded(ps.drop_first());
        if ps[0].0.len() == 0 {
            rest
        } else if rest.len() == 0 {
            token(ps[0].0, ps[0].1)
        } else {
            token(ps[0].0, ps[0].1) + seq![' '] + rest
        }
    }
}

/// The parameters whose name is not empty, in their order.
pub open spec fn named(ps: Seq<ParamView>) -> Seq<ParamView>
    decreases ps.len(),
{
    if ps.len() == 0 {
        Seq::empty()
    } else if ps[0].0.len() == 0 {
        named(ps.drop_first())
    } else {
        seq![ps[0]] + named(ps.drop_first())
    }
}

/// A name that a decoder can tell apart from its value and from the next
/// token: it holds no space and no `=`.
pub open spec fn plain_name(n: Seq<char>) -> bool {
    forall|j: int| 0 <= j < n.len() ==> n[j] != ' ' && n[j] != '='
}

/// Where the decoder stands between two characters.
#[derive(PartialEq, Eq, Structural, Clone, Copy)]
pub enum Scan {
    /// Between tokens.
    Gap,
    /// Reading a name.
    Name,
    /// Just after the `=` of a name.
    Open,
    /// Inside the quotes of a value.
    Quoted,
    /// Just after a backslash inside the quotes.
    Escaped,
}

/// What is left to decode from `s`, in state `st`, with the current name and
/// value read so far.
pub open spec fn decode_from(s: Seq<char>, st: Scan, name: Seq<char>, value: Seq<char>) -> Seq<
    ParamView,
>
    decreases s.len(),
{
    if s.len() == 0 {
        match st {
            Scan::Gap => Seq::empty(),
            _ => seq![(name, value)],
        }
    } else {
        let c = s[0];
        let t = s.drop_first();
        match st {
            Scan::Gap => if c == ' ' {
                decode_from(t, Scan::Gap, name, value)
            } else {
                decode_from(t, Scan::Name, seq![c], Seq::empty())
            },
            Scan::Name => if c == ' ' {
                seq![(name, Seq::empty())] + decode_from(t, Scan::Gap, name, value)
            } else if c == '=' {
                decode_from(t, Scan::Open, name, Seq::empty())
            } else {
                decode_from(t, Scan::Name, name.push(c), value)
            },
            Scan::Open => if c == '"' {
                decode_from(t, Scan::Quoted, name, Seq::empty())
            } else if c == ' ' {
                seq![(name, Seq::empty())] + decode_from(t, Scan::Gap, name, value)
            } else {
                decode_from(t, Scan::Quoted, name, seq![c])
            },
            Scan::Quoted => if c == '"' {
                seq![(name, value)] + decode_from(t, Scan::Gap, name, value)
            } else if c == '\\' {
                decode_from(t, Scan::Escaped, name, value)
            } else {
                decode_from(t, Scan::Quoted, name, value.push(c))
            },
            Scan::Escaped => decode_from(t, Scan::Quoted, name, value.push(c)),
        }
    }
}

/// The parameters read back from an encoded argument.
pub open spec fn decoded(s: Seq<char>) -> Seq<ParamView> {
    decode_from(s, Scan::Gap, Seq::empty(), Seq::empty())
}

/// `i` is the position of the first parameter named `n`.
pub open spec fn first_named(ps: Seq<ParamView>, n: Seq<char>, i: int) -> bool {
    &&& 0 <= i < ps.len()
    &&& ps[i].0 == n
    &&& forall|j: int| 0 <= j < i ==> ps[j].0 != n
}

/// The parameters after setting `n` to `v`: the value of the first parameter
/// named `n` is replaced in place, or the parameter is added at the end.
pub open spec fn with_param(ps: Seq<ParamView>, n: Seq<char>, v: Seq<char>) -> Seq<ParamView> {
    if exists|i: int| first_named(ps, n, i) {
        ps.update(choose|i: int| first_named(ps, n, i), (n, v))
    } else {
        ps.push((n, v))
    }
}

/// The parameters as the contracts see them.
pub open spec fn params_view(ps: Seq<(String, String)>) -> Seq<ParamView> {
    Seq::new(ps.len(), |i: int| (ps[i].0@, ps[i].1@))
}

// ---------------------------------------------------------------- lemmas

proof fn lemma_escaped_concat(a: Seq<char>, b: Seq<char>)
    ensures
        escaped(a + b) == escaped(a) + escaped(b),
    decreases a.len(),
{
    if a.len() == 0 {
        assert(a + b =~= b);
        assert(escaped(a) + escaped(b) =~= escaped(b));
    } else {
        assert((a + b).drop_first() =~= a.drop_first() + b);
        lemma_escaped_concat(a.drop_first(), b);
        assert(escaped(a + b) =~= escaped(a) + escaped(b));
    }
}

proof fn lemma_escaped_push(a: Seq<char>, c: char)
    ensures
        escaped(a.push(c)) == escaped(a) + escaped_char(c),
{
    lemma_escaped_concat(a, seq![c]);
    assert(a.push(c) =~= a + seq![c]);
    let none = seq![c].drop_first();
    assert(none =~= Seq::<char>::empty());
    assert(escaped(none) == Seq::<char>::empty());
    assert(escaped(seq![c]) == escaped_char(c) + escaped(none));
    assert(escaped(seq![c]) =~= escaped_char(c));
}

proof fn lemma_first_named_unique(ps: Seq<ParamView>, n: Seq<char>, i: int, k: int)
    requires
        first_named(ps, n, i),
        first_named(ps, n, k),
    ensures
        i == k,
{
    if i < k {
        assert(ps[i].0 != n);
    } else if k < i {
        assert(ps[k].0 != n);
    }
}

/// Setting a parameter whose name is not yet present adds it at the end.
pub proof fn lemma_with_new_param(ps: Seq<ParamView>, n: Seq<char>, v: Seq<char>)
    requires
        forall|i: int| 0 <= i < ps.len() ==> ps[i].0 != n,
    ensures
        with_param(ps, n, v) == ps.push((n, v)),
{
}

/// Reading the rest of a plain name adds it to the name read so far.
proof fn lemma_decode_name(n: Seq<char>, r: Seq<char>, pre: Seq<char>, v: Seq<char>)
    requires
        plain_name(n),
    ensures
        decode_from(n + r, Scan::Name, pre, v) == decode_from(r, Scan::Name, pre + n, v),
    decreases n.len(),
{
    if n.len() == 0 {
        assert(n + r =~= r);
        assert(pre + n =~= pre);
    } else {
        assert((n + r).drop_first() =~= n.drop_first() + r);
        assert((n + r)[0] == n[0]);
        lemma_decode_name(n.drop_first(), r, pre.push(n[0]), v);
        assert(pre.push(n[0]) + n.drop_first() =~= pre + n);
    }
}

/// Reading an escaped value inside the quotes adds the value itself.
proof fn lemma_decode_value(v: Seq<char>, r: Seq<char>, n: Seq<char>, acc: Seq<char>)
    ensures
        decode_from(escaped(v) + r, Scan::Quoted, n, acc) == decode_from(
            r,
            Scan::Quoted,
            n,
            acc + v,
        ),
    decreases v.len(),
{
    if v.len() == 0 {
        assert(escaped(v) + r =~= r);
        assert(acc + v =~= acc);
    } else {
        let c = v[0];
        let s = escaped(v) + r;
        let rest = escaped(v.drop_first()) + r;
        lemma_decode_value(v.drop_first(), r, n, acc.push(c));
        assert(acc.push(c) + v.drop_first() =~= acc + v);
        assert(escaped(v) == escaped_char(c) + escaped(v.drop_first()));
        if c == '"' || c == '\\' {
            assert(s =~= seq!['\\', c] + rest);
            let s1 = s.drop_first();
            assert(s1 =~= seq![c] + rest);
            assert(s1.drop_first() =~= rest);
            assert(decode_from(s, Scan::Quoted, n, acc) == decode_from(s1, Scan::Escaped, n, acc));
            assert(decode_from(s1, Scan::Escaped, n, acc) == decode_from(
                rest,
                Scan::Quoted,
                n,
                acc.push(c),
            ));
        } else {
            assert(s =~= seq![c] + rest);
            assert(s.drop_first() =~= rest);
            assert(decode_from(s, Scan::Quoted, n, acc) == decode_from(
                rest,
                Scan::Quoted,
                n,
                acc.push(c),
            ));
        }
    }
}

/// Decoding a token followed by a gap yields its parameter, then the gap.
proof fn lemma_decode_token(n: Seq<char>, v: Seq<char>, r: Seq<char>)
    requires
        n.len() > 0,
        plain_name(n),
        r.len() == 0 || r[0] == ' ',
    ensures
        decode_from(token(n, v) + r, Scan::Gap, Seq::empty(), Seq::empty()) == seq![(n, v)]
            + decode_from(r, Scan::Gap, Seq::empty(), Seq::empty()),
{
    let e: Seq<char> = Seq::empty();
    let tail = token(n, v).drop_first() + r;
    let s = token(n, v) + r;
    assert(s[0] == n[0]);
    assert(s.drop_first() =~= tail);
    // the first character starts the name
    assert(decode_from(s, Scan::Gap, e, e) == decode_from(tail, Scan::Name, seq![n[0]], e));
    if v.len() == 0 {
        assert(tail =~= n.drop_first() + r);
        lemma_decode_name(n.drop_first(), r, seq![n[0]], e);
        assert(seq![n[0]] + n.drop_first() =~= n);
        assert(decode_from(tail, Scan::Name, seq![n[0]], e) == decode_from(r, Scan::Name, n, e));
        assert(v =~= e);
        if r.len() > 0 {
            lemma_decode_gap_ignores(r.drop_first(), n, e);
            assert(decode_from(r, Scan::Name, n, e) == seq![(n, e)] + decode_from(
                r.drop_first(),
                Scan::Gap,
                e,
                e,
            ));
            assert(decode_from(r, Scan::Gap, e, e) == decode_from(r.drop_first(), Scan::Gap, e, e));
        } else {
            assert(seq![(n, v)] + decode_from(r, Scan::Gap, e, e) =~= seq![(n, v)]);
        }
    } else {
        let q = seq!['=', '"'] + escaped(v) + seq!['"'] + r;
        assert(tail =~= n.drop_first() + q);
        lemma_decode_name(n.drop_first(), q, seq![n[0]], e);
        assert(seq![n[0]] + n.drop_first() =~= n);
        let q2 = escaped(v) + (seq!['"'] + r);
        assert(decode_from(tail, Scan::Name, seq![n[0]], e) == decode_from(q, Scan::Name, n, e));
        let q1 = q.drop_first();
        assert(q[0] == '=');
        assert(q1[0] == '"');
        assert(q1.drop_first() =~= q2);
        assert(decode_from(q, Scan::Name, n, e) == decode_from(q1, Scan::Open, n, e));
        assert(decode_from(q1, Scan::Open, n, e) == decode_from(q2, Scan::Quoted, n, e));
        lemma_decode_value(v, seq!['"'] + r, n, e);
        assert(e + v =~= v);
        let q3 = seq!['"'] + r;
        assert(q3[0] == '"');
        assert(q3.drop_first() =~= r);
        assert(decode_from(q3, Scan::Quoted, n, v) == seq![(n, v)] + decode_from(
            r,
            Scan::Gap,
            n,
            v,
        ));
        lemma_decode_gap_ignores(r, n, v);
    }
}

/// Between tokens, the name and value left from the last token play no part.
proof fn lemma_decode_gap_ignores(s: Seq<char>, n: Seq<char>, v: Seq<char>)
    ensures
        decode_from(s, Scan::Gap, n, v) == decode_from(s, Scan::Gap, Seq::empty(), Seq::empty()),
    decreases s.len(),
{
    if s.len() > 0 && s[0] == ' ' {
        lemma_decode_gap_ignores(s.drop_first(), n, v);
    }
}

/// Parameters with an empty name leave no trace in the encoding.
pub proof fn lemma_empty_names_skipped(ps: Seq<ParamView>)
    ensures
        encoded(ps) == encoded(named(ps)),
        forall|i: int| 0 <= i < named(ps).len() ==> named(ps)[i].0.len() > 0,
    decreases ps.len(),
{
    if ps.len() > 0 {
        lemma_empty_names_skipped(ps.drop_first());
        if ps[0].0.len() > 0 {
            let m = seq![ps[0]] + named(ps.drop_first());
            assert(m.drop_first() =~= named(ps.drop_first()));
            assert(m[0] == ps[0]);
        }
    }
}

/// Decoding the encoding of parameters with plain names gives back every
/// parameter with a non-empty name, with its value, in order.
pub proof fn lemma_decode_encode(ps: Seq<ParamView>)
    requires
        forall|i: int| 0 <= i < ps.len() ==> plain_name(#[trigger] ps[i].0),
    ensures
        decoded(encoded(ps)) == named(ps),
    decreases ps.len(),
{
    if ps.len() > 0 {
        let tail = ps.drop_first();
        assert forall|i: int| 0 <= i < tail.len() implies plain_name(#[trigger] tail[i].0) by {
            assert(tail[i] == ps[i + 1]);
        }
        lemma_decode_encode(tail);
        let rest = encoded(tail);
        let (n, v) = ps[0];
        assert(plain_name(ps[0].0));
        if n.len() > 0 {
            if rest.len() == 0 {
                lemma_decode_token(n, v, rest);
                assert(token(n, v) + rest =~= token(n, v));
                assert(named(ps) =~= seq![(n, v)] + named(tail));
            } else {
                let r = seq![' '] + rest;
                lemma_decode_token(n, v, r);
                assert(token(n, v) + seq![' '] + rest =~= token(n, v) + r);
                assert(r.drop_first() =~= rest);
                assert(named(ps) =~= seq![(n, v)] + named(tail));
            }
        }
    }
}

// ---------------------------------------------------------------- code

/// `v` with every quote and backslash preceded by a backslash.
pub fn escape_value(v: &str) -> (r: String)
    ensures
        r@ == escaped(v@),
{
    let len = v.unicode_len();
    let mut out = String::new();
    let mut i: usize = 0;
    while i < len
        invariant
            len == v@.len(),
            i <= len,
            out@ == escaped(v@.subrange(0, i as int)),
        decreases len - i,
    {
        let c = v.get_char(i);
        proof {
            lemma_escaped_push(v@.subrange(0, i as int), c);
            assert(v@.subrange(0, i as int).push(c) =~= v@.subrange(0, i + 1));
            reveal_strlit("\\\"");
            reveal_strlit("\\\\");
        }
        if c == '"' {
            out.append("\\\"");
        } else if c == '\\' {
            out.append("\\\\");
        } else {
            out.append(v.substring_char(i, i + 1));
        }
        i = i + 1;
        assert(out@ =~= escaped(v@.subrange(0, i as int)));
    }
    assert(v@.subrange(0, len as int) =~= v@);
    out
}

/// The token of one parameter: the bare name, or `name="value"`.
pub fn parameter_token(name: &str, value: &str) -> (r: String)
    ensures
        r@ == token(name@, value@),
{
    let mut out = String::from_str(name);
    if !value.is_empty() {
        proof {
            reveal_strlit("=\"");
            reveal_strlit("\"");
        }
        out.append("=\"");
        let e = escape_value(value);
        out.append(e.as_str());
        out.append("\"");
    }
    out
}

/// Sets parameter `name` to `value` in `params`: the first parameter of that
/// name gets the new value in place, or the parameter is added at the end.
pub fn set_parameter(params: &mut Vec<(String, String)>, name: &str, value: &str)
    ensures
        params_view(final(params)@) == with_param(params_view(old(params)@), name@, value@),
{
    let ghost ps = params_view(params@);
    let name_s = String::from_str(name);
    let n = params.len();
    let mut pos: Option<usize> = None;
    let mut i: usize = 0;
    while i < n
        invariant
            n == params@.len(),
            ps == params_view(params@),
            name_s@ == name@,
            i <= n,
            match pos {
                None => forall|j: int| 0 <= j < i ==> ps[j].0 != name@,
                Some(k) => first_named(ps, name@, k as int),
            },
        decreases n - i,
    {
        if pos.is_none() && params[i].0 == name_s {
            pos = Some(i);
        }
        i = i + 1;
    }
    let value_s = String::from_str(value);
    match pos {
        Some(k) => {
            proof {
                assert forall|k2: int| first_named(ps, name@, k2) implies k2 == k by {
                    lemma_first_named_unique(ps, name@, k2, k as int);
                }
            }
            params[k] = (name_s, value_s);
            assert(params_view(params@) =~= with_param(ps, name@, value@));
        },
        None => {
            params.push((name_s, value_s));
            assert(params_view(params@) =~= with_param(ps, name@, value@));
        },
    }
}

/// The parameters encoded into one argument, in their order; a parameter
/// with an empty name is left out.
pub fn encode_parameters(params: &Vec<(String, String)>) -> (r: String)
    ensures
        r@ == encoded(params_view(params@)),
{
    let ghost ps = params_view(params@);
    let n = params.len();
    let mut acc = String::new();
    let mut i: usize = n;
    assert(ps.subrange(n as int, n as int) =~= Seq::<ParamView>::empty());
    while i > 0
        invariant
            n == params@.len(),
            ps == params_view(params@),
            i <= n,
            acc@ == encoded(ps.subrange(i as int, n as int)),
        decreases i,
    {
        i = i - 1;
        let ghost sub = ps.subrange(i as int, n as int);
        assert(sub.drop_first() =~= ps.subrange(i + 1, n as int));
        assert(sub[0] == ps[i as int]);
        let name = params[i].0.as_str();
        let value = params[i].1.as_str();
        if !name.is_empty() {
            let mut t = parameter_token(name, value);
            if !acc.as_str().is_empty() {
                proof {
                    reveal_strlit(" ");
                }
                t.append(" ");
                t.append(acc.as_str());
            }
            acc = t;
        }
    }
    assert(ps.subrange(0, n as int) =~= ps);
    acc
}

/// The parameters read back from an encoded argument.
pub fn decode_parameters(s: &str) -> (r: Vec<(String, String)>)
    ensures
        params_view(r@) == decoded(s@),
{
    let len = s.unicode_len();
    let mut out: Vec<(String, String)> = Vec::new();
    let mut st = Scan::Gap;
    let mut name = String::new();
    let mut value = String::new();
    let mut i: usize = 0;
    assert(s@.subrange(0, len as int) =~= s@);
    assert(params_view(out@) =~= Seq::<ParamView>::empty());
    while i < len
        invariant
            len == s@.len(),
            i <= len,
            decoded(s@) == params_view(out@) + decode_from(
                s@.subrange(i as int, len as int),
                st,
                name@,
                value@,
            ),
        decreases len - i,
    {
        let ghost t = s@.subrange(i as int, len as int);
        let ghost old_out = params_view(out@);
        let ghost old_st = st;
        let ghost old_name = name@;
        let ghost old_value = value@;
        let c = s.get_char(i);
        let piece = s.substring_char(i, i + 1);
        assert(t[0] == c);
        assert(t.drop_first() =~= s@.subrange(i + 1, len as int));
        assert(piece@ =~= seq![c]);
        let mut emit = false;
        match st {
            Scan::Gap => {
                if c != ' ' {
                    name = String::from_str(piece);
                    value = String::new();
                    st = Scan::Name;
                }
            },
            Scan::Name => {
                if c == ' ' {
                    value = String::new();
                    emit = true;
                } else if c == '=' {
                    value = String::new();
                    st = Scan::Open;
                } else {
                    name.append(piece);
                    assert(name@ =~= old_name.push(c));
                }
            },
            Scan::Open => {
                if c == '"' {
                    value = String::new();
                    st = Scan::Quoted;
                } else if c == ' ' {
                    value = String::new();
                    emit = true;
                } else {
                    value = String::from_str(piece);
                    st = Scan::Quoted;
                }
            },
            Scan::Quoted => {
                if c == '"' {
                    emit = true;
                } else if c == '\\' {
                    st = Scan::Escaped;
                } else {
                    value.append(piece);
                    assert(value@ =~= old_value.push(c));
                }
            },
            Scan::Escaped => {
                value.append(piece);
                assert(value@ =~= old_value.push(c));
                st = Scan::Quoted;
            },
        }
        if emit {
            let ghost pair = (name@, value@);
            out.push((name, value));
            assert(params_view(out@) =~= old_out + seq![pair]);
            name = String::new();
            value = String::new();
            st = Scan::Gap;
            proof {
                lemma_decode_gap_ignores(s@.subrange(i + 1, len as int), pair.0, pair.1);
                lemma_decode_gap_ignores(s@.subrange(i + 1, len as int), old_name, old_value);
            }
            assert(decode_from(t, old_st, old_name, old_value) == seq![pair] + decode_from(
                s@.subrange(i + 1, len as int),
                st,
                name@,
                value@,
            ));
        } else {
            assert(decode_from(t, old_st, old_name, old_value) == decode_from(
                s@.subrange(i + 1, len as int),
                st,
                name@,
                value@,
            ));
        }
        i = i + 1;
    }
    let ghost old_out = params_view(out@);
    let ghost rest = s@.subrange(len as int, len as int);
    assert(rest =~= Seq::<char>::empty());
    match st {
        Scan::Gap => {},
        _ => {
            let ghost pair = (name@, value@);
            out.push((name, value));
            assert(params_view(out@) =~= old_out + seq![pair]);
        },
    }
    out
}

} // verus!
