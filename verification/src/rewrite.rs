//! The emulator-config rewrite the toggle performs: replace the line whose
//! first token is the shader key, keep every other line byte-identical and in
//! order, and append the key line when it was absent.
use vstd::prelude::*;

use crate::text::str_eq;

verus! {

/// The whitespace that separates a config line's first token.
pub open spec fn is_ws(c: char) -> bool {
    c == ' ' || c == '\t'
}

/// The line with its leading whitespace removed.
pub open spec fn skip_ws(s: Seq<char>) -> Seq<char>
    decreases s.len(),
{
    if s.len() == 0 {
        s
    } else if is_ws(s[0]) {
        skip_ws(s.drop_first())
    } else {
        s
    }
}

/// The leading run of non-whitespace characters.
pub open spec fn take_token(s: Seq<char>) -> Seq<char>
    decreases s.len(),
{
    if s.len() == 0 || is_ws(s[0]) {
        Seq::empty()
    } else {
        seq![s[0]] + take_token(s.drop_first())
    }
}

/// The first whitespace-delimited token of a line.
pub open spec fn first_token(s: Seq<char>) -> Seq<char> {
    take_token(skip_ws(s))
}

/// A line that sets the emulator's shader key.
pub open spec fn is_key_line(l: Seq<char>) -> bool {
    first_token(l) == "custom-shader"@
}

/// The key line written for a shader path.
pub open spec fn shader_line(shader: Seq<char>) -> Seq<char> {
    "custom-shader = \""@ + shader + "\""@
}

proof fn lemma_skip_ws_prefix(s: Seq<char>, i: int)
    requires
        0 <= i <= s.len(),
        forall|k: int| 0 <= k < i ==> is_ws(s[k]),
        i < s.len() ==> !is_ws(s[i]),
    ensures
        skip_ws(s) == s.skip(i),
    decreases i,
{
    if i == 0 {
        assert(s.skip(0) =~= s);
        if s.len() > 0 {
            assert(!is_ws(s[0]));
        }
    } else {
        assert(is_ws(s[0]));
        lemma_skip_ws_prefix(s.drop_first(), i - 1);
        assert(s.drop_first().skip(i - 1) =~= s.skip(i));
    }
}

proof fn lemma_take_token_prefix(s: Seq<char>, m: int)
    requires
        0 <= m <= s.len(),
        forall|k: int| 0 <= k < m ==> !is_ws(s[k]),
        m < s.len() ==> is_ws(s[m]),
    ensures
        take_token(s) == s.subrange(0, m),
    decreases m,
{
    if m == 0 {
        assert(take_token(s) =~= s.subrange(0, 0));
    } else {
        assert(!is_ws(s[0]));
        lemma_take_token_prefix(s.drop_first(), m - 1);
        assert(seq![s[0]] + s.drop_first().subrange(0, m - 1) =~= s.subrange(0, m));
    }
}

/// The first whitespace-delimited token of a line, executably.
pub fn first_token_of(line: &str) -> (r: String)
    ensures
        r@ == first_token(line@),
{
    let n = line.unicode_len();
    let mut i: usize = 0;
    while i < n && (line.get_char(i) == ' ' || line.get_char(i) == '\t')
        invariant
            0 <= i <= n,
            forall|k: int| 0 <= k < i ==> is_ws(line@[k]),
        decreases n - i,
    {
        i = i + 1;
    }
    proof {
        lemma_skip_ws_prefix(line@, i as int);
    }
    let mut j: usize = i;
    while j < n && !(line.get_char(j) == ' ' || line.get_char(j) == '\t')
        invariant
            i <= j <= n,
            forall|k: int| i <= k < j ==> !is_ws(line@[k]),
        decreases n - j,
    {
        j = j + 1;
    }
    proof {
        let rest = line@.skip(i as int);
        assert(forall|k: int| 0 <= k < j - i ==> rest[k] == line@[k + i] && !is_ws(rest[k]));
        if j < n {
            assert(is_ws(rest[j - i]));
        }
        lemma_take_token_prefix(rest, j - i);
        assert(rest.subrange(0, j - i) =~= line@.subrange(i as int, j as int));
    }
    String::from_str(line.substring_char(i, j))
}

/// Whether a line sets the shader key, executably.
pub fn is_shader_key_line(line: &str) -> (r: bool)
    ensures
        r == is_key_line(line@),
{
    let token = first_token_of(line);
    str_eq(token.as_str(), "custom-shader")
}

/// The non-key lines of a config, in their original order.
pub open spec fn keep_unrelated(lines: Seq<Seq<char>>) -> Seq<Seq<char>>
    decreases lines.len(),
{
    if lines.len() == 0 {
        Seq::empty()
    } else if is_key_line(lines[0]) {
        keep_unrelated(lines.drop_first())
    } else {
        seq![lines[0]] + keep_unrelated(lines.drop_first())
    }
}

/// The key lines of a config, in their original order.
pub open spec fn select_keys(lines: Seq<Seq<char>>) -> Seq<Seq<char>>
    decreases lines.len(),
{
    if lines.len() == 0 {
        Seq::empty()
    } else if is_key_line(lines[0]) {
        seq![lines[0]] + select_keys(lines.drop_first())
    } else {
        select_keys(lines.drop_first())
    }
}

/// The rewritten config: the first key line becomes the new key line, later
/// key lines disappear, every other line stays, and the key line is appended
/// when none was present.
pub open spec fn rewrite_spec(lines: Seq<Seq<char>>, shader: Seq<char>) -> Seq<Seq<char>>
    decreases lines.len(),
{
    if lines.len() == 0 {
        seq![shader_line(shader)]
    } else if is_key_line(lines[0]) {
        seq![shader_line(shader)] + keep_unrelated(lines.drop_first())
    } else {
        seq![lines[0]] + rewrite_spec(lines.drop_first(), shader)
    }
}

/// The key line written for a shader path, executably.
pub fn make_shader_line(shader: &str) -> (r: String)
    ensures
        r@ == shader_line(shader@),
{
    let mut s = String::from_str("custom-shader = \"");
    s.append(shader);
    s.append("\"");
    proof {
        assert(s@ =~= shader_line(shader@));
    }
    s
}

/// Rewrites a config's lines for a newly active shader path.
pub fn rewrite_config(lines: &Vec<String>, shader: &str) -> (r: Vec<String>)
    ensures
        r.deep_view() == rewrite_spec(lines.deep_view(), shader@),
{
    let ghost dv = lines.deep_view();
    let mut out: Vec<String> = Vec::new();
    let mut replaced = false;
    let mut i: usize = 0;
    proof {
        assert(out.deep_view() =~= Seq::<Seq<char>>::empty());
        assert(dv.skip(0) =~= dv);
        assert(Seq::<Seq<char>>::empty() + rewrite_spec(dv, shader@) =~= rewrite_spec(dv, shader@));
    }
    while i < lines.len()
        invariant
            0 <= i <= dv.len(),
            dv.len() == lines@.len(),
            forall|k: int| 0 <= k < dv.len() ==> #[trigger] dv[k] == lines@[k]@,
            !replaced ==> rewrite_spec(dv, shader@) == out.deep_view() + rewrite_spec(
                dv.skip(i as int),
                shader@,
            ),
            replaced ==> rewrite_spec(dv, shader@) == out.deep_view() + keep_unrelated(
                dv.skip(i as int),
            ),
        decreases dv.len() - i,
    {
        proof {
            assert(dv.skip(i as int)[0] == dv[i as int]);
            assert(dv.skip(i as int).drop_first() =~= dv.skip(i + 1));
        }
        let line = &lines[i];
        if is_shader_key_line(line.as_str()) {
            if !replaced {
                let nl = make_shader_line(shader);
                proof {
                    assert((out.deep_view().push(nl@)) =~= out.deep_view() + seq![shader_line(
                        shader@,
                    )]);
                    assert(out.deep_view() + (seq![shader_line(shader@)] + keep_unrelated(
                        dv.skip(i + 1),
                    )) =~= (out.deep_view() + seq![shader_line(shader@)]) + keep_unrelated(
                        dv.skip(i + 1),
                    ));
                }
                out.push(nl);
                replaced = true;
            }
        } else {
            proof {
                let cur = dv[i as int];
                assert((out.deep_view().push(cur)) =~= out.deep_view() + seq![cur]);
                if replaced {
                    assert(out.deep_view() + (seq![cur] + keep_unrelated(dv.skip(i + 1))) =~= (
                    out.deep_view() + seq![cur]) + keep_unrelated(dv.skip(i + 1)));
                } else {
                    assert(out.deep_view() + (seq![cur] + rewrite_spec(dv.skip(i + 1), shader@))
                        =~= (out.deep_view() + seq![cur]) + rewrite_spec(dv.skip(i + 1), shader@));
                }
            }
            out.push(line.clone());
        }
        i = i + 1;
    }
    proof {
        assert(dv.skip(dv.len() as int) =~= Seq::<Seq<char>>::empty());
    }
    if !replaced {
        let nl = make_shader_line(shader);
        proof {
            assert(rewrite_spec(Seq::<Seq<char>>::empty(), shader@) == seq![shader_line(shader@)]);
            assert((out.deep_view().push(nl@)) =~= out.deep_view() + seq![shader_line(shader@)]);
        }
        out.push(nl);
    } else {
        proof {
            assert(keep_unrelated(Seq::<Seq<char>>::empty()) =~= Seq::<Seq<char>>::empty());
            assert(out.deep_view() + Seq::<Seq<char>>::empty() =~= out.deep_view());
        }
    }
    out
}

/// The key line built for any shader path is itself a key line.
pub proof fn lemma_shader_line_is_key(shader: Seq<char>)
    ensures
        is_key_line(shader_line(shader)),
{
    let l = shader_line(shader);
    let p = "custom-shader = \""@;
    reveal_strlit("custom-shader = \"");
    reveal_strlit("custom-shader");
    assert(forall|k: int| 0 <= k < 17 ==> l[k] == p[k]);
    assert(!is_ws(l[0]));
    assert(skip_ws(l) == l);
    assert(forall|k: int| 0 <= k < 13 ==> !is_ws(l[k]));
    assert(is_ws(l[13]));
    lemma_take_token_prefix(l, 13);
    assert(l.subrange(0, 13) =~= "custom-shader"@);
}

proof fn lemma_keep_unrelated_no_keys(x: Seq<Seq<char>>)
    ensures
        forall|i: int|
            0 <= i < keep_unrelated(x).len() ==> !is_key_line(#[trigger] keep_unrelated(x)[i]),
    decreases x.len(),
{
    if x.len() > 0 {
        lemma_keep_unrelated_no_keys(x.drop_first());
        if !is_key_line(x[0]) {
            let k = keep_unrelated(x.drop_first());
            assert(keep_unrelated(x) == seq![x[0]] + k);
            assert forall|i: int| 0 <= i < keep_unrelated(x).len() implies !is_key_line(
                keep_unrelated(x)[i],
            ) by {
                if i == 0 {
                    assert(keep_unrelated(x)[0] == x[0]);
                } else {
                    assert(keep_unrelated(x)[i] == k[i - 1]);
                }
            }
        }
    }
}

proof fn lemma_keep_unrelated_identity(x: Seq<Seq<char>>)
    requires
        forall|i: int| 0 <= i < x.len() ==> !is_key_line(#[trigger] x[i]),
    ensures
        keep_unrelated(x) == x,
    decreases x.len(),
{
    if x.len() > 0 {
        lemma_keep_unrelated_identity(x.drop_first());
        assert(seq![x[0]] + x.drop_first() =~= x);
    }
}

proof fn lemma_select_keys_empty(x: Seq<Seq<char>>)
    requires
        forall|i: int| 0 <= i < x.len() ==> !is_key_line(#[trigger] x[i]),
    ensures
        select_keys(x) == Seq::<Seq<char>>::empty(),
    decreases x.len(),
{
    if x.len() > 0 {
        lemma_select_keys_empty(x.drop_first());
    }
}

/// The rewrite leaves every line that does not set the shader key exactly as
/// it was, in its original order: the non-key lines of the result are the
/// non-key lines of the input.
pub proof fn lemma_rewrite_keeps_unrelated(lines: Seq<Seq<char>>, shader: Seq<char>)
    ensures
        keep_unrelated(rewrite_spec(lines, shader)) == keep_unrelated(lines),
    decreases lines.len(),
{
    lemma_shader_line_is_key(shader);
    let sl = shader_line(shader);
    if lines.len() == 0 {
        assert(rewrite_spec(lines, shader) == seq![sl]);
        assert(seq![sl][0] == sl);
        assert(seq![sl].drop_first() =~= Seq::<Seq<char>>::empty());
        assert(keep_unrelated(seq![sl]) == keep_unrelated(Seq::<Seq<char>>::empty()));
        assert(keep_unrelated(lines) == Seq::<Seq<char>>::empty());
    } else if is_key_line(lines[0]) {
        let k = keep_unrelated(lines.drop_first());
        assert(rewrite_spec(lines, shader) == seq![sl] + k);
        assert((seq![sl] + k)[0] == sl);
        assert((seq![sl] + k).drop_first() =~= k);
        lemma_keep_unrelated_no_keys(lines.drop_first());
        lemma_keep_unrelated_identity(k);
        assert(keep_unrelated(seq![sl] + k) == keep_unrelated(k));
        assert(keep_unrelated(lines) == k);
    } else {
        lemma_rewrite_keeps_unrelated(lines.drop_first(), shader);
        let r = rewrite_spec(lines.drop_first(), shader);
        assert(rewrite_spec(lines, shader) == seq![lines[0]] + r);
        assert((seq![lines[0]] + r)[0] == lines[0]);
        assert((seq![lines[0]] + r).drop_first() =~= r);
        assert(keep_unrelated(seq![lines[0]] + r) == seq![lines[0]] + keep_unrelated(r));
        assert(keep_unrelated(lines) == seq![lines[0]] + keep_unrelated(lines.drop_first()));
    }
}

/// After the rewrite exactly one key line exists, and it is the line written
/// for the new shader path — whether or not the input had any key line.
pub proof fn lemma_rewrite_single_key(lines: Seq<Seq<char>>, shader: Seq<char>)
    ensures
        select_keys(rewrite_spec(lines, shader)) == seq![shader_line(shader)],
    decreases lines.len(),
{
    lemma_shader_line_is_key(shader);
    let sl = shader_line(shader);
    if lines.len() == 0 {
        assert(rewrite_spec(lines, shader) == seq![sl]);
        assert(seq![sl][0] == sl);
        assert(seq![sl].drop_first() =~= Seq::<Seq<char>>::empty());
        assert(select_keys(seq![sl]) == seq![sl] + select_keys(Seq::<Seq<char>>::empty()));
        assert(seq![sl] + select_keys(Seq::<Seq<char>>::empty()) =~= seq![sl]);
    } else if is_key_line(lines[0]) {
        let k = keep_unrelated(lines.drop_first());
        assert(rewrite_spec(lines, shader) == seq![sl] + k);
        assert((seq![sl] + k)[0] == sl);
        assert((seq![sl] + k).drop_first() =~= k);
        lemma_keep_unrelated_no_keys(lines.drop_first());
        lemma_select_keys_empty(k);
        assert(seq![sl] + Seq::<Seq<char>>::empty() =~= seq![sl]);
    } else {
        lemma_rewrite_single_key(lines.drop_first(), shader);
        let r = rewrite_spec(lines.drop_first(), shader);
        assert(rewrite_spec(lines, shader) == seq![lines[0]] + r);
        assert((seq![lines[0]] + r)[0] == lines[0]);
        assert((seq![lines[0]] + r).drop_first() =~= r);
    }
}

/// Running the rewrite twice with the same shader path gives exactly the
/// lines of running it once.
pub proof fn lemma_rewrite_idempotent(lines: Seq<Seq<char>>, shader: Seq<char>)
    ensures
        rewrite_spec(rewrite_spec(lines, shader), shader) == rewrite_spec(lines, shader),
    decreases lines.len(),
{
    lemma_shader_line_is_key(shader);
    let sl = shader_line(shader);
    if lines.len() == 0 {
        assert(rewrite_spec(lines, shader) == seq![sl]);
        assert(seq![sl][0] == sl);
        assert(seq![sl].drop_first() =~= Seq::<Seq<char>>::empty());
        assert(rewrite_spec(seq![sl], shader) == seq![sl] + keep_unrelated(
            Seq::<Seq<char>>::empty(),
        ));
        assert(seq![sl] + keep_unrelated(Seq::<Seq<char>>::empty()) =~= seq![sl]);
    } else if is_key_line(lines[0]) {
        let k = keep_unrelated(lines.drop_first());
        assert(rewrite_spec(lines, shader) == seq![sl] + k);
        assert((seq![sl] + k)[0] == sl);
        assert((seq![sl] + k).drop_first() =~= k);
        lemma_keep_unrelated_no_keys(lines.drop_first());
        lemma_keep_unrelated_identity(k);
        assert(rewrite_spec(seq![sl] + k, shader) == seq![sl] + keep_unrelated(k));
    } else {
        lemma_rewrite_idempotent(lines.drop_first(), shader);
        let r = rewrite_spec(lines.drop_first(), shader);
        assert(rewrite_spec(lines, shader) == seq![lines[0]] + r);
        assert((seq![lines[0]] + r)[0] == lines[0]);
        assert((seq![lines[0]] + r).drop_first() =~= r);
        assert(rewrite_spec(seq![lines[0]] + r, shader) == seq![lines[0]] + rewrite_spec(r, shader));
    }
}

} // verus!
