//! The settings file: one `KEY=value` line per setting. Reading and writing
//! the file is the application's; what a file's text says, and what it says
//! after an update, is decided here.

use vstd::prelude::*;
use vstd::string::StringSliceAdditionalSpecFns;
use vstd::utf8::{decode_utf8, encode_utf8, is_char_boundary};
use crate::lines::{chars_of, lines_of, newline_pieces, strip_cr, text_lines};

verus! {

broadcast use vstd::string::group_string_axioms, vstd::utf8::encode_utf8_decode_utf8;

/// `l` begins with `p`.
pub open spec fn starts_with(l: Seq<char>, p: Seq<char>) -> bool {
    p.len() <= l.len() && l.subrange(0, p.len() as int) == p
}

/// The lines of `ls` that do not begin with `p`, in order.
pub open spec fn lines_without_prefix(ls: Seq<Seq<char>>, p: Seq<char>) -> Seq<Seq<char>>
    decreases ls.len(),
{
    if ls.len() == 0 {
        ls
    } else {
        let k = lines_without_prefix(ls.drop_last(), p);
        if starts_with(ls.last(), p) {
            k
        } else {
            k.push(ls.last())
        }
    }
}

/// The lines of `ls` joined with newlines between them.
pub open spec fn join_lines(ls: Seq<Seq<char>>) -> Seq<char>
    decreases ls.len(),
{
    if ls.len() == 0 {
        Seq::empty()
    } else if ls.len() == 1 {
        ls[0]
    } else {
        join_lines(ls.drop_last()) + "\n"@ + ls.last()
    }
}

/// The settings text after `key` is set to `value`: every line that begins
/// with `key=` is dropped, the line `key=value` is added at the end, and the
/// lines are joined with newlines.
pub open spec fn updated_settings(content: Seq<char>, key: Seq<char>, value: Seq<char>) -> Seq<
    char,
> {
    join_lines(
        lines_without_prefix(text_lines(content), key + "="@).push(key + "="@ + value),
    )
}

/// `i` is the position of the first `=` of `l`.
pub open spec fn first_eq_at(l: Seq<char>, i: int) -> bool {
    &&& 0 <= i < l.len()
    &&& l[i] == '='
    &&& forall|k: int| 0 <= k < i ==> l[k] != '='
}

/// A line split at its first `=` into key and value; `None` where the line
/// has no `=`.
pub open spec fn split_setting(l: Seq<char>) -> Option<(Seq<char>, Seq<char>)> {
    if exists|i: int| first_eq_at(l, i) {
        let i = choose|i: int| first_eq_at(l, i);
        Some((l.subrange(0, i), l.subrange(i + 1, l.len() as int)))
    } else {
        None
    }
}

/// The value of the first line of `ls` whose key is `key`.
pub open spec fn lookup_setting(ls: Seq<Seq<char>>, key: Seq<char>) -> Option<Seq<char>>
    decreases ls.len(),
{
    if ls.len() == 0 {
        None
    } else {
        match split_setting(ls[0]) {
            Some((k, v)) => if k == key {
                Some(v)
            } else {
                lookup_setting(ls.drop_first(), key)
            },
            None => lookup_setting(ls.drop_first(), key),
        }
    }
}

/// Line `l` sets `key`: its key, up to its first `=`, is `key`.
pub open spec fn defines_key(l: Seq<char>, key: Seq<char>) -> bool {
    split_setting(l) matches Some((k, _)) && k == key
}

/// How many lines of `ls` set `key`.
pub open spec fn lines_defining(ls: Seq<Seq<char>>, key: Seq<char>) -> nat
    decreases ls.len(),
{
    if ls.len() == 0 {
        0
    } else {
        lines_defining(ls.drop_last(), key) + if defines_key(ls.last(), key) {
            1nat
        } else {
            0nat
        }
    }
}

/// The byte length of a value, as `str::len` reports it.
pub open spec fn byte_len(v: Seq<char>) -> usize {
    encode_utf8(v).len() as usize
}

/// A value as the settings list shows it: values longer than four bytes
/// keep their first two and last two bytes around `****`; shorter ones are
/// all `****`.
pub open spec fn masked_value(v: Seq<char>) -> Seq<char> {
    let b = encode_utf8(v);
    let n = byte_len(v);
    if n > 4 {
        decode_utf8(b.subrange(0, 2)) + "****"@ + decode_utf8(b.subrange(n - 2, b.len() as int))
    } else {
        "****"@
    }
}

/// The value can be masked: where it is longer than four bytes, its first
/// two and last two bytes are whole characters.
pub open spec fn maskable(v: Seq<char>) -> bool {
    let b = encode_utf8(v);
    let n = byte_len(v);
    n > 4 ==> is_char_boundary(b, 2) && is_char_boundary(b, n - 2)
}

/// The settings of `ls` as the settings list shows them: each line with a
/// `=`, as its key and its masked value.
pub open spec fn listed_settings(ls: Seq<Seq<char>>) -> Seq<(Seq<char>, Seq<char>)>
    decreases ls.len(),
{
    if ls.len() == 0 {
        Seq::empty()
    } else {
        let rest = listed_settings(ls.drop_last());
        match split_setting(ls.last()) {
            Some((k, v)) => rest.push((k, masked_value(v))),
            None => rest,
        }
    }
}

/// Every value in `ls` can be masked.
pub open spec fn all_maskable(ls: Seq<Seq<char>>) -> bool {
    forall|i: int|
        0 <= i < ls.len() ==> (#[trigger] split_setting(ls[i]) matches Some((_, v)) ==> maskable(
            v,
        ))
}

fn starts_with_chars(l: &Vec<char>, p: &Vec<char>) -> (r: bool)
    ensures
        r == starts_with(l@, p@),
{
    if p.len() > l.len() {
        return false;
    }
    let mut i: usize = 0;
    while i < p.len()
        invariant
            p@.len() <= l@.len(),
            i <= p@.len(),
            forall|k: int| 0 <= k < i ==> l@[k] == p@[k],
        decreases p@.len() - i,
    {
        if l[i] != p[i] {
            assert(l@.subrange(0, p@.len() as int)[i as int] != p@[i as int]);
            return false;
        }
        i = i + 1;
    }
    assert(l@.subrange(0, p@.len() as int) =~= p@);
    true
}

/// The settings text after `key_name` is set to `key_value`.
pub fn upsert_setting(content: &str, key_name: &str, key_value: &str) -> (r: String)
    ensures
        r@ == updated_settings(content@, key_name@, key_value@),
{
    let lines = lines_of(content);
    let ghost ls = lines@.map_values(|l: String| l@);
    let mut prefix = String::from_str(key_name);
    prefix.append("=");
    let pchars = chars_of(prefix.as_str());
    let mut kept: Vec<String> = Vec::new();
    let mut i: usize = 0;
    while i < lines.len()
        invariant
            i <= lines@.len(),
            ls == lines@.map_values(|l: String| l@),
            pchars@ == key_name@ + "="@,
            kept@.map_values(|l: String| l@) == lines_without_prefix(ls.take(i as int), pchars@),
        decreases lines@.len() - i,
    {
        assert(ls.take(i + 1).drop_last() =~= ls.take(i as int));
        let lc = chars_of(lines[i].as_str());
        if !starts_with_chars(&lc, &pchars) {
            kept.push(lines[i].clone());
        }
        assert(kept@.map_values(|l: String| l@) =~= lines_without_prefix(
            ls.take(i + 1),
            pchars@,
        ));
        i = i + 1;
    }
    assert(ls.take(lines@.len() as int) =~= ls);
    let mut new_line = String::from_str(key_name);
    new_line.append("=");
    new_line.append(key_value);
    kept.push(new_line);
    let ghost all = kept@.map_values(|l: String| l@);
    assert(all =~= lines_without_prefix(text_lines(content@), key_name@ + "="@).push(
        key_name@ + "="@ + key_value@,
    ));
    let mut out = String::new();
    let mut j: usize = 0;
    while j < kept.len()
        invariant
            j <= kept@.len(),
            all == kept@.map_values(|l: String| l@),
            out@ == join_lines(all.take(j as int)),
        decreases kept@.len() - j,
    {
        assert(all.take(j + 1).drop_last() =~= all.take(j as int));
        if j > 0 {
            out.append("\n");
        } else {
            assert(all.take(1) =~= seq![all[0]]);
        }
        out.append(kept[j].as_str());
        j = j + 1;
    }
    assert(all.take(kept@.len() as int) =~= all);
    out
}

/// A line split at its first `=`.
pub fn split_setting_line(l: &str) -> (r: Option<(String, String)>)
    ensures
        r matches Some((k, v)) ==> split_setting(l@) == Some((k@, v@)),
        r is None ==> split_setting(l@) is None,
{
    let cs = chars_of(l);
    let mut i: usize = 0;
    while i < cs.len()
        invariant
            cs@ == l@,
            i <= cs@.len(),
            forall|k: int| 0 <= k < i ==> cs@[k] != '=',
        decreases cs@.len() - i,
    {
        if cs[i] == '=' {
            assert(first_eq_at(l@, i as int));
            let ghost j = choose|j: int| first_eq_at(l@, j);
            assert(j == i) by {
                if j < i {
                } else if j > i {
                }
            }
            let k = String::from_str(l.substring_char(0, i));
            let v = String::from_str(l.substring_char(i + 1, cs.len()));
            return Some((k, v));
        }
        i = i + 1;
    }
    assert(!exists|j: int| first_eq_at(l@, j));
    None
}

/// The value stored for `key_name` in the settings text: the value of the
/// first line whose key (the text before its first `=`) is `key_name`;
/// `"Key not found"` where there is none.
pub fn find_setting(content: &str, key_name: &str) -> (r: Result<String, String>)
    ensures
        r matches Ok(v) ==> lookup_setting(text_lines(content@), key_name@) == Some(v@),
        r matches Err(m) ==> lookup_setting(text_lines(content@), key_name@) is None && m@
            == "Key not found"@,
{
    let lines = lines_of(content);
    let ghost ls = lines@.map_values(|l: String| l@);
    let key = String::from_str(key_name);
    let mut i: usize = 0;
    assert(ls.skip(0) =~= ls);
    while i < lines.len()
        invariant
            i <= lines@.len(),
            ls == lines@.map_values(|l: String| l@),
            key@ == key_name@,
            ls == text_lines(content@),
            lookup_setting(ls, key_name@) == lookup_setting(ls.skip(i as int), key_name@),
        decreases lines@.len() - i,
    {
        let ghost rest = ls.skip(i as int);
        assert(rest[0] == ls[i as int]);
        assert(rest.drop_first() =~= ls.skip(i + 1));
        match split_setting_line(lines[i].as_str()) {
            Some((k, v)) => {
                if k == key {
                    return Ok(v);
                }
            },
            None => {},
        }
        i = i + 1;
    }
    assert(ls.skip(lines@.len() as int) =~= Seq::<Seq<char>>::empty());
    Err(String::from_str("Key not found"))
}

/// A value as the settings list shows it.
pub fn mask_value(v: &str) -> (r: String)
    requires
        maskable(v@),
    ensures
        r@ == masked_value(v@),
{
    let n = v.len();
    if n > 4 {
        let (head, _) = v.split_at(2);
        let (_, tail) = v.split_at(n - 2);
        proof {
            let b = encode_utf8(v@);
            assert(n == byte_len(v@));
            assert(head@ == decode_utf8(head.spec_bytes()));
            assert(tail@ == decode_utf8(tail.spec_bytes()));
            assert(head@ == decode_utf8(b.subrange(0, 2)));
            assert(tail@ == decode_utf8(b.subrange(n - 2, b.len() as int)));
        }
        let mut s = String::from_str(head);
        s.append("****");
        s.append(tail);
        s
    } else {
        String::from_str("****")
    }
}

/// Every value in the settings text can be masked; the settings list is
/// defined only for such texts.
pub fn all_values_maskable(content: &str) -> (r: bool)
    ensures
        r == all_maskable(text_lines(content@)),
{
    let lines = lines_of(content);
    let ghost ls = lines@.map_values(|l: String| l@);
    let mut i: usize = 0;
    while i < lines.len()
        invariant
            i <= lines@.len(),
            ls == lines@.map_values(|l: String| l@),
            ls == text_lines(content@),
            forall|k: int|
                0 <= k < i ==> (#[trigger] split_setting(ls[k]) matches Some((_, v)) ==> maskable(
                    v,
                )),
        decreases lines@.len() - i,
    {
        match split_setting_line(lines[i].as_str()) {
            Some((k, v)) => {
                let n = v.as_str().len();
                if n > 4 && !(v.as_str().is_char_boundary(2) && v.as_str().is_char_boundary(n - 2)) {
                    assert(!maskable(v@));
                    assert(ls[i as int] == lines@[i as int]@);
                    assert(split_setting(ls[i as int]) == Some((k@, v@)));
                    return false;
                }
            },
            None => {},
        }
        i = i + 1;
    }
    true
}

/// The settings of the text, as the settings list shows them: each line
/// with a `=`, as its key and its masked value.
pub fn list_masked_settings(content: &str) -> (r: Vec<(String, String)>)
    requires
        all_maskable(text_lines(content@)),
    ensures
        r@.map_values(|p: (String, String)| (p.0@, p.1@)) == listed_settings(text_lines(content@)),
{
    let lines = lines_of(content);
    let ghost ls = lines@.map_values(|l: String| l@);
    let mut out: Vec<(String, String)> = Vec::new();
    let mut i: usize = 0;
    while i < lines.len()
        invariant
            i <= lines@.len(),
            ls == lines@.map_values(|l: String| l@),
            ls == text_lines(content@),
            all_maskable(ls),
            out@.map_values(|p: (String, String)| (p.0@, p.1@)) == listed_settings(
                ls.take(i as int),
            ),
        decreases lines@.len() - i,
    {
        assert(ls.take(i + 1).drop_last() =~= ls.take(i as int));
        assert(ls.take(i + 1).last() == ls[i as int]);
        match split_setting_line(lines[i].as_str()) {
            Some((k, v)) => {
                assert(split_setting(ls[i as int]) matches Some((_, vv)) ==> maskable(vv));
                let m = mask_value(v.as_str());
                out.push((k, m));
            },
            None => {},
        }
        assert(out@.map_values(|p: (String, String)| (p.0@, p.1@)) =~= listed_settings(
            ls.take(i + 1),
        ));
        i = i + 1;
    }
    assert(ls.take(lines@.len() as int) =~= ls);
    out
}

/// The settings list of the text, or an error where a value longer than
/// four bytes does not have whole characters as its first two and last two
/// bytes, so that no listing is made of a text that cannot be masked.
pub fn list_settings_text(content: &str) -> (r: Result<Vec<(String, String)>, String>)
    ensures
        r is Ok <==> all_maskable(text_lines(content@)),
        r matches Ok(v) ==> v@.map_values(|p: (String, String)| (p.0@, p.1@)) == listed_settings(
            text_lines(content@),
        ),
        r matches Err(m) ==> m@ == "byte index is not a char boundary"@,
{
    if all_values_maskable(content) {
        Ok(list_masked_settings(content))
    } else {
        Err(String::from_str("byte index is not a char boundary"))
    }
}

// ---------------------------------------------------------------------------
// Reading back what was written
// ---------------------------------------------------------------------------

/// `s` holds no `c`.
pub open spec fn free_of(s: Seq<char>, c: char) -> bool {
    forall|i: int| 0 <= i < s.len() ==> s[i] != c
}

/// No line of `ls` holds a `c`.
pub open spec fn all_free(ls: Seq<Seq<char>>, c: char) -> bool {
    forall|i: int| 0 <= i < ls.len() ==> free_of(#[trigger] ls[i], c)
}

/// Every line of `ls` is free of newlines.
pub open spec fn all_newline_free(ls: Seq<Seq<char>>) -> bool {
    all_free(ls, '\n')
}

proof fn lemma_pieces_of_newline_free(s: Seq<char>)
    requires
        free_of(s, '\n'),
    ensures
        newline_pieces(s) == seq![s],
    decreases s.len(),
{
    if s.len() > 0 {
        lemma_pieces_of_newline_free(s.drop_last());
        assert(s.drop_last().push(s.last()) =~= s);
        assert(seq![s.drop_last()].update(0, s.drop_last().push(s.last())) =~= seq![s]);
    } else {
        assert(s =~= Seq::<char>::empty());
    }
}

proof fn lemma_pieces_append_free(x: Seq<char>, y: Seq<char>)
    requires
        free_of(y, '\n'),
    ensures
        newline_pieces(x + y) == newline_pieces(x).update(
            newline_pieces(x).len() - 1,
            newline_pieces(x).last() + y,
        ),
    decreases y.len(),
{
    crate::lines::lemma_newline_pieces_nonempty(x);
    if y.len() == 0 {
        assert(x + y =~= x);
        assert(newline_pieces(x).last() + y =~= newline_pieces(x).last());
        assert(newline_pieces(x).update(newline_pieces(x).len() - 1, newline_pieces(x).last())
            =~= newline_pieces(x));
    } else {
        let y0 = y.drop_last();
        lemma_pieces_append_free(x, y0);
        assert((x + y).drop_last() =~= x + y0);
        assert((x + y).last() == y.last());
        let p = newline_pieces(x);
        let q = newline_pieces(x + y0);
        assert(q =~= p.update(p.len() - 1, p.last() + y0));
        assert((p.last() + y0).push(y.last()) =~= p.last() + y);
        assert(q.update(q.len() - 1, q.last().push(y.last())) =~= p.update(
            p.len() - 1,
            p.last() + y,
        ));
    }
}

proof fn lemma_pieces_of_joined(ls: Seq<Seq<char>>)
    requires
        ls.len() >= 1,
        all_newline_free(ls),
    ensures
        newline_pieces(join_lines(ls)) == ls,
    decreases ls.len(),
{
    if ls.len() == 1 {
        lemma_pieces_of_newline_free(ls[0]);
        assert(seq![ls[0]] =~= ls);
    } else {
        let init = ls.drop_last();
        assert(all_newline_free(init)) by {
            assert forall|i: int| 0 <= i < init.len() implies free_of(#[trigger] init[i], '\n') by {
                assert(init[i] == ls[i]);
            }
        }
        lemma_pieces_of_joined(init);
        let x = join_lines(init) + "\n"@;
        reveal_strlit("\n");
        assert(x =~= join_lines(init).push('\n'));
        assert(x.drop_last() =~= join_lines(init));
        assert(newline_pieces(x) == newline_pieces(join_lines(init)).push(Seq::<char>::empty()));
        assert(free_of(ls.last(), '\n'));
        lemma_pieces_append_free(x, ls.last());
        assert(join_lines(ls) =~= x + ls.last());
        let p = newline_pieces(x);
        assert(p.last() + ls.last() =~= ls.last());
        assert(p.update(p.len() - 1, p.last() + ls.last()) =~= ls);
    }
}

proof fn lemma_pieces_free(s: Seq<char>, c: char)
    requires
        c == '\n' || free_of(s, c),
    ensures
        all_free(newline_pieces(s), c),
    decreases s.len(),
{
    if s.len() > 0 {
        lemma_pieces_free(s.drop_last(), c);
        crate::lines::lemma_newline_pieces_nonempty(s.drop_last());
        let p = newline_pieces(s.drop_last());
        if s.last() != '\n' {
            assert(free_of(p.last(), c));
            assert(s[s.len() - 1] != c);
            assert(free_of(p.last().push(s.last()), c));
            let q = p.update(p.len() - 1, p.last().push(s.last()));
            assert forall|i: int| 0 <= i < q.len() implies free_of(#[trigger] q[i], c) by {
                if i < p.len() - 1 {
                    assert(q[i] == p[i]);
                }
            }
        } else {
            let q = p.push(Seq::<char>::empty());
            assert forall|i: int| 0 <= i < q.len() implies free_of(#[trigger] q[i], c) by {
                if i < p.len() {
                    assert(q[i] == p[i]);
                }
            }
        }
    }
}

proof fn lemma_text_lines_free(s: Seq<char>, c: char)
    requires
        c == '\n' || free_of(s, c),
    ensures
        all_free(text_lines(s), c),
{
    lemma_pieces_free(s, c);
    crate::lines::lemma_newline_pieces_nonempty(s);
    let p = newline_pieces(s);
    let body = p.drop_last().map_values(|l: Seq<char>| strip_cr(l));
    assert forall|i: int| 0 <= i < body.len() implies free_of(#[trigger] body[i], c) by {
        assert(free_of(p[i], c));
    }
    if p.last().len() != 0 {
        let b2 = body.push(p.last());
        assert forall|i: int| 0 <= i < b2.len() implies free_of(#[trigger] b2[i], c) by {
            if i < body.len() {
                assert(b2[i] == body[i]);
            } else {
                assert(free_of(p[p.len() - 1], c));
            }
        }
    }
}

proof fn lemma_kept_lines_props(ls: Seq<Seq<char>>, pre: Seq<char>, c: char)
    requires
        all_free(ls, c),
    ensures
        all_free(lines_without_prefix(ls, pre), c),
        forall|i: int|
            0 <= i < lines_without_prefix(ls, pre).len() ==> !starts_with(
                #[trigger] lines_without_prefix(ls, pre)[i],
                pre,
            ),
    decreases ls.len(),
{
    if ls.len() > 0 {
        let init = ls.drop_last();
        assert(all_free(init, c)) by {
            assert forall|i: int| 0 <= i < init.len() implies free_of(#[trigger] init[i], c) by {
                assert(init[i] == ls[i]);
            }
        }
        lemma_kept_lines_props(init, pre, c);
        let k = lines_without_prefix(init, pre);
        if !starts_with(ls.last(), pre) {
            let k2 = k.push(ls.last());
            assert(free_of(ls[ls.len() - 1], c));
            assert forall|i: int| 0 <= i < k2.len() implies free_of(#[trigger] k2[i], c) by {
                if i < k.len() {
                    assert(k2[i] == k[i]);
                }
            }
            assert forall|i: int| 0 <= i < k2.len() implies !starts_with(#[trigger] k2[i], pre) by {
                if i < k.len() {
                    assert(k2[i] == k[i]);
                }
            }
        }
    }
}

proof fn lemma_split_of_setting_line(key: Seq<char>, value: Seq<char>)
    requires
        free_of(key, '='),
    ensures
        split_setting(key + "="@ + value) == Some((key, value)),
{
    reveal_strlit("=");
    let l = key + "="@ + value;
    let n = key.len() as int;
    assert(l[n] == '=');
    assert forall|k: int| 0 <= k < n implies l[k] != '=' by {
        assert(l[k] == key[k]);
    }
    assert(first_eq_at(l, n));
    let j = choose|j: int| first_eq_at(l, j);
    assert(j == n) by {
        if j < n {
            assert(l[j] == key[j]);
        }
    }
    assert(l.subrange(0, n) =~= key);
    assert(l.subrange(n + 1, l.len() as int) =~= value);
}

proof fn lemma_split_key_prefix(l: Seq<char>, key: Seq<char>)
    requires
        split_setting(l) matches Some((k, _)) && k == key,
    ensures
        starts_with(l, key + "="@),
{
    reveal_strlit("=");
    let i = choose|i: int| first_eq_at(l, i);
    assert(first_eq_at(l, i));
    assert(l.subrange(0, i) == key);
    assert(l.subrange(0, key.len() as int + 1) =~= key + "="@);
}

proof fn lemma_lookup_skips_other_keys(a: Seq<Seq<char>>, b: Seq<Seq<char>>, key: Seq<char>)
    requires
        forall|i: int|
            0 <= i < a.len() ==> !(#[trigger] split_setting(a[i]) matches Some((k, _)) && k == key),
    ensures
        lookup_setting(a + b, key) == lookup_setting(b, key),
    decreases a.len(),
{
    if a.len() > 0 {
        let rest = a.drop_first();
        assert((a + b).drop_first() =~= rest + b);
        assert((a + b)[0] == a[0]);
        assert(!(split_setting(a[0]) matches Some((k, _)) && k == key));
        assert forall|i: int|
            0 <= i < rest.len() implies !(#[trigger] split_setting(rest[i]) matches Some((k, _))
            && k == key) by {
            assert(rest[i] == a[i + 1]);
            assert(!(split_setting(a[i + 1]) matches Some((k, _)) && k == key));
        }
        lemma_lookup_skips_other_keys(rest, b, key);
    } else {
        assert(a + b =~= b);
    }
}

proof fn lemma_updated_lines(content: Seq<char>, key: Seq<char>, value: Seq<char>)
    requires
        free_of(key, '='),
        free_of(key, '\n'),
        free_of(value, '\n'),
    ensures
        text_lines(updated_settings(content, key, value)) == lines_without_prefix(
            text_lines(content),
            key + "="@,
        ).map_values(|l: Seq<char>| strip_cr(l)).push(key + "="@ + value),
        forall|i: int|
            0 <= i < lines_without_prefix(text_lines(content), key + "="@).len() ==> !starts_with(
                #[trigger] lines_without_prefix(text_lines(content), key + "="@)[i],
                key + "="@,
            ),
{
    reveal_strlit("=");
    let pre = key + "="@;
    let lines = text_lines(content);
    lemma_text_lines_free(content, '\n');
    lemma_kept_lines_props(lines, pre, '\n');
    let kept = lines_without_prefix(lines, pre);
    let new_line = key + "="@ + value;
    assert(free_of(new_line, '\n')) by {
        assert forall|i: int| 0 <= i < new_line.len() implies new_line[i] != '\n' by {
            if i < key.len() {
                assert(new_line[i] == key[i]);
            } else if i > key.len() {
                assert(new_line[i] == value[i - key.len() - 1]);
            }
        }
    }
    let all = kept.push(new_line);
    assert(all_newline_free(all)) by {
        assert forall|i: int| 0 <= i < all.len() implies free_of(#[trigger] all[i], '\n') by {
            if i < kept.len() {
                assert(all[i] == kept[i]);
            }
        }
    }
    let text = join_lines(all);
    lemma_pieces_of_joined(all);
    assert(newline_pieces(text) == all);
    assert(all.last() == new_line);
    assert(new_line.len() > 0);
    assert(all.drop_last() =~= kept);
}

/// A setting that was saved is read back: after `key` is set to `value`,
/// looking `key` up in the new text gives `value`, whatever the text held
/// before. This holds for keys without `=` or newline and values without
/// newline, which are what one line of the file can hold.
pub proof fn lemma_saved_setting_reads_back(content: Seq<char>, key: Seq<char>, value: Seq<char>)
    requires
        free_of(key, '='),
        free_of(key, '\n'),
        free_of(value, '\n'),
    ensures
        lookup_setting(text_lines(updated_settings(content, key, value)), key) == Some(value),
        lines_defining(text_lines(updated_settings(content, key, value)), key) == 1,
{
    reveal_strlit("=");
    let pre = key + "="@;
    lemma_updated_lines(content, key, value);
    let kept = lines_without_prefix(text_lines(content), pre);
    let new_line = key + "="@ + value;
    let stripped = kept.map_values(|l: Seq<char>| strip_cr(l));
    assert forall|i: int|
        0 <= i < stripped.len() implies !(#[trigger] split_setting(stripped[i]) matches Some((k, _))
        && k == key) by {
        let l = kept[i];
        assert(stripped[i] == strip_cr(l));
        if split_setting(strip_cr(l)) matches Some((k, _)) && k == key {
            lemma_split_key_prefix(strip_cr(l), key);
            assert(strip_cr(l).subrange(0, pre.len() as int) =~= l.subrange(0, pre.len() as int));
            assert(starts_with(l, pre));
            assert(!starts_with(kept[i], pre));
        }
    }
    lemma_lookup_skips_other_keys(stripped, seq![new_line], key);
    assert(stripped.push(new_line) =~= stripped + seq![new_line]);
    lemma_split_of_setting_line(key, value);
    assert(seq![new_line].drop_first() =~= Seq::<Seq<char>>::empty());
    lemma_none_defining(stripped, key);
    assert(stripped.push(new_line).drop_last() =~= stripped);
}

proof fn lemma_none_defining(ls: Seq<Seq<char>>, key: Seq<char>)
    requires
        forall|i: int|
            0 <= i < ls.len() ==> !(#[trigger] split_setting(ls[i]) matches Some((k, _)) && k == key),
    ensures
        lines_defining(ls, key) == 0,
    decreases ls.len(),
{
    if ls.len() > 0 {
        let init = ls.drop_last();
        assert forall|i: int|
            0 <= i < init.len() implies !(#[trigger] split_setting(init[i]) matches Some((k, _)) && k
            == key) by {
            assert(init[i] == ls[i]);
        }
        lemma_none_defining(init, key);
        assert(!(split_setting(ls[ls.len() - 1]) matches Some((k, _)) && k == key));
    }
}

proof fn lemma_lookup_push(a: Seq<Seq<char>>, x: Seq<char>, key: Seq<char>)
    ensures
        lookup_setting(a.push(x), key) == match lookup_setting(a, key) {
            Some(v) => Some(v),
            None => lookup_setting(seq![x], key),
        },
    decreases a.len(),
{
    if a.len() == 0 {
        assert(a.push(x) =~= seq![x]);
    } else {
        assert(a.push(x).drop_first() =~= a.drop_first().push(x));
        assert(a.push(x)[0] == a[0]);
        lemma_lookup_push(a.drop_first(), x, key);
    }
}

proof fn lemma_lookup_single(x: Seq<char>, key: Seq<char>)
    ensures
        lookup_setting(seq![x], key) == match split_setting(x) {
            Some((k, v)) => if k == key {
                Some(v)
            } else {
                None
            },
            None => None,
        },
{
    assert(seq![x].drop_first() =~= Seq::<Seq<char>>::empty());
    assert(lookup_setting(Seq::<Seq<char>>::empty(), key) is None);
}

proof fn lemma_lookup_of_kept(ls: Seq<Seq<char>>, pre: Seq<char>, key: Seq<char>)
    requires
        forall|l: Seq<char>|
            starts_with(l, pre) ==> !(#[trigger] split_setting(l) matches Some((k, _)) && k == key),
    ensures
        lookup_setting(lines_without_prefix(ls, pre), key) == lookup_setting(ls, key),
    decreases ls.len(),
{
    if ls.len() > 0 {
        let init = ls.drop_last();
        lemma_lookup_of_kept(init, pre, key);
        assert(init.push(ls.last()) =~= ls);
        lemma_lookup_push(init, ls.last(), key);
        let k = lines_without_prefix(init, pre);
        lemma_lookup_single(ls.last(), key);
        if starts_with(ls.last(), pre) {
            assert(!(split_setting(ls.last()) matches Some((kk, _)) && kk == key));
        } else {
            lemma_lookup_push(k, ls.last(), key);
        }
    }
}

proof fn lemma_first_eq_unique(l: Seq<char>, i: int, j: int)
    requires
        first_eq_at(l, i),
        first_eq_at(l, j),
    ensures
        i == j,
{
    if i < j {
        assert(l[i] == '=');
    } else if j < i {
        assert(l[j] == '=');
    }
}

/// Dropping the carriage return that ends a line drops it from the line's
/// value and leaves its key.
proof fn lemma_split_strip_cr(l: Seq<char>)
    ensures
        split_setting(strip_cr(l)) == match split_setting(l) {
            Some((k, v)) => Some((k, strip_cr(v))),
            None => None,
        },
{
    if l.len() > 0 && l.last() == '\r' {
        let s = l.drop_last();
        assert forall|i: int| first_eq_at(l, i) implies first_eq_at(s, i) by {
            assert(i != l.len() - 1);
            assert forall|k: int| 0 <= k < i implies s[k] != '=' by {
                assert(s[k] == l[k]);
            }
        }
        assert forall|i: int| first_eq_at(s, i) implies first_eq_at(l, i) by {
            assert forall|k: int| 0 <= k < i implies l[k] != '=' by {
                assert(s[k] == l[k]);
            }
        }
        if exists|i: int| first_eq_at(l, i) {
            let i = choose|i: int| first_eq_at(l, i);
            let j = choose|j: int| first_eq_at(s, j);
            assert(first_eq_at(s, i));
            lemma_first_eq_unique(s, i, j);
            let v = l.subrange(i + 1, l.len() as int);
            assert(v.len() > 0 && v.last() == '\r');
            assert(s.subrange(0, i) =~= l.subrange(0, i));
            assert(s.subrange(i + 1, s.len() as int) =~= v.drop_last());
        }
    } else {
        if exists|i: int| first_eq_at(l, i) {
            let i = choose|i: int| first_eq_at(l, i);
            let v = l.subrange(i + 1, l.len() as int);
            if v.len() > 0 {
                assert(v.last() == l.last());
            }
        }
    }
}

/// Looking a key up in lines without their final carriage returns gives
/// the value without its final carriage return.
proof fn lemma_lookup_strip_cr(ls: Seq<Seq<char>>, key: Seq<char>)
    ensures
        lookup_setting(ls.map_values(|l: Seq<char>| strip_cr(l)), key) == match lookup_setting(
            ls,
            key,
        ) {
            Some(v) => Some(strip_cr(v)),
            None => None,
        },
    decreases ls.len(),
{
    if ls.len() > 0 {
        let m = ls.map_values(|l: Seq<char>| strip_cr(l));
        assert(m.drop_first() =~= ls.drop_first().map_values(|l: Seq<char>| strip_cr(l)));
        assert(m[0] == strip_cr(ls[0]));
        lemma_split_strip_cr(ls[0]);
        lemma_lookup_strip_cr(ls.drop_first(), key);
    }
}

/// Saving a setting leaves every other setting as it was: looking up any
/// other key gives what it gave before. This holds for keys without `=`
/// or newline and values without newline, where the value the other key
/// had does not end in a carriage return: the saved text ends every kept
/// line with a newline, and a line ended by a newline is read without a
/// carriage return before it.
pub proof fn lemma_save_keeps_other_settings(
    content: Seq<char>,
    key: Seq<char>,
    value: Seq<char>,
    other: Seq<char>,
)
    requires
        free_of(key, '='),
        free_of(key, '\n'),
        free_of(value, '\n'),
        other != key,
        lookup_setting(text_lines(content), other) matches Some(v) ==> strip_cr(v) == v,
    ensures
        lookup_setting(text_lines(updated_settings(content, key, value)), other) == lookup_setting(
            text_lines(content),
            other,
        ),
{
    reveal_strlit("=");
    let pre = key + "="@;
    lemma_updated_lines(content, key, value);
    let lines = text_lines(content);
    let kept = lines_without_prefix(lines, pre);
    let stripped = kept.map_values(|l: Seq<char>| strip_cr(l));
    let new_line = key + "="@ + value;
    lemma_prefixed_lines_have_key(key, other);
    lemma_lookup_of_kept(lines, pre, other);
    lemma_lookup_strip_cr(kept, other);
    lemma_lookup_push(stripped, new_line, other);
    lemma_split_of_setting_line(key, value);
    lemma_lookup_single(new_line, other);
}

proof fn lemma_prefixed_lines_have_key(key: Seq<char>, other: Seq<char>)
    requires
        free_of(key, '='),
        other != key,
    ensures
        forall|l: Seq<char>|
            starts_with(l, key + "="@) ==> !(#[trigger] split_setting(l) matches Some((k, _)) && k
                == other),
{
    reveal_strlit("=");
    let pre = key + "="@;
    assert forall|l: Seq<char>|
        starts_with(l, pre) implies !(#[trigger] split_setting(l) matches Some((k, _)) && k
        == other) by {
        let n = key.len() as int;
        assert(l.subrange(0, n + 1) == pre);
        assert(l[n] == '=') by {
            assert(l.subrange(0, n + 1)[n] == pre[n]);
        }
        assert forall|k: int| 0 <= k < n implies l[k] != '=' by {
            assert(l.subrange(0, n + 1)[k] == pre[k]);
        }
        assert(first_eq_at(l, n));
        let j = choose|j: int| first_eq_at(l, j);
        assert(j == n) by {
            if j < n {
                assert(l[j] != '=');
            }
        }
        assert(l.subrange(0, n) =~= key) by {
            assert forall|k: int| 0 <= k < n implies l.subrange(0, n)[k] == key[k] by {
                assert(l.subrange(0, n + 1)[k] == pre[k]);
            }
        }
    }
}

} // verus!
