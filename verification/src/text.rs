use vstd::prelude::*;

verus! {

/// The views of a vector of strings.
pub open spec fn views(v: Seq<String>) -> Seq<Seq<char>> {
    v.map_values(|s: String| s@)
}

/// The view of an optional string.
pub open spec fn opt_view(o: Option<String>) -> Option<Seq<char>> {
    match o {
        Some(s) => Some(s@),
        None => None,
    }
}

/// `sep` occurs in `s` starting at index `i`.
pub open spec fn occurs_at(s: Seq<char>, sep: Seq<char>, i: int) -> bool {
    &&& 0 <= i
    &&& i + sep.len() <= s.len()
    &&& s.subrange(i, i + sep.len()) == sep
}

/// The first index `j >= i` at which `sep` occurs in `s`, or -1 when there is none.
pub open spec fn first_match(s: Seq<char>, sep: Seq<char>, i: int) -> int
    decreases s.len() - i,
{
    if i < 0 || sep.len() == 0 || i + sep.len() > s.len() {
        -1
    } else if occurs_at(s, sep, i) {
        i
    } else {
        first_match(s, sep, i + 1)
    }
}

/// The pieces of `s.subrange(i, s.len())` between the non-overlapping occurrences
/// of the non-empty separator `sep`, found from left to right (as `str::split` does).
pub open spec fn split_from(s: Seq<char>, sep: Seq<char>, i: int) -> Seq<Seq<char>>
    decreases s.len() - i,
{
    if sep.len() == 0 || i < 0 || i > s.len() {
        seq![]
    } else {
        let k = first_match(s, sep, i);
        proof {
            lemma_first_match_bounds(s, sep, i);
        }
        if k < 0 {
            seq![s.subrange(i, s.len() as int)]
        } else {
            seq![s.subrange(i, k)] + split_from(s, sep, k + sep.len())
        }
    }
}

/// `s.split(sep)` for a non-empty separator.
pub open spec fn split(s: Seq<char>, sep: Seq<char>) -> Seq<Seq<char>> {
    split_from(s, sep, 0)
}

/// The pieces of `words`, with `sep` between each two neighbours.
pub open spec fn join(words: Seq<Seq<char>>, sep: Seq<char>) -> Seq<char>
    decreases words.len(),
{
    if words.len() == 0 {
        seq![]
    } else if words.len() == 1 {
        words[0]
    } else {
        words[0] + sep + join(words.drop_first(), sep)
    }
}

/// What `Message::content_contains(search, split_by)` of the chat client gives for
/// a message whose content is `content`: the pieces of the content split at
/// `split_by`, when one of them is `search`.
pub open spec fn content_words(content: Option<Seq<char>>, search: Seq<char>, sep: Seq<char>) -> Option<
    Seq<Seq<char>>,
> {
    match content {
        None => None,
        Some(c) => if split(c, sep).contains(search) {
            Some(split(c, sep))
        } else {
            None
        },
    }
}

pub proof fn lemma_first_match_bounds(s: Seq<char>, sep: Seq<char>, i: int)
    ensures
        first_match(s, sep, i) < 0 || (i <= first_match(s, sep, i) && occurs_at(
            s,
            sep,
            first_match(s, sep, i),
        )),
    decreases s.len() - i,
{
    if i < 0 || sep.len() == 0 || i + sep.len() > s.len() {
    } else if occurs_at(s, sep, i) {
    } else {
        lemma_first_match_bounds(s, sep, i + 1);
    }
}

proof fn lemma_split_from_nonempty(s: Seq<char>, sep: Seq<char>, i: int)
    requires
        sep.len() > 0,
        0 <= i <= s.len(),
    ensures
        split_from(s, sep, i).len() > 0,
    decreases s.len() - i,
{
    let k = first_match(s, sep, i);
    lemma_first_match_bounds(s, sep, i);
    if k >= 0 {
        lemma_split_from_nonempty(s, sep, k + sep.len());
    }
}

proof fn lemma_join_split_from(s: Seq<char>, sep: Seq<char>, i: int)
    requires
        sep.len() > 0,
        0 <= i <= s.len(),
    ensures
        join(split_from(s, sep, i), sep) == s.subrange(i, s.len() as int),
    decreases s.len() - i,
{
    let k = first_match(s, sep, i);
    lemma_first_match_bounds(s, sep, i);
    if k >= 0 {
        let rest = split_from(s, sep, k + sep.len());
        lemma_join_split_from(s, sep, k + sep.len());
        lemma_split_from_nonempty(s, sep, k + sep.len());
        let all = seq![s.subrange(i, k)] + rest;
        assert(all.drop_first() =~= rest);
        assert(all[0] == s.subrange(i, k));
        assert(s.subrange(i, k) + sep + s.subrange(k + sep.len(), s.len() as int) =~= s.subrange(
            i,
            s.len() as int,
        ));
    }
}

/// Splitting at a non-empty separator and joining the pieces with it again gives
/// back the text: no character is lost or added by the split.
pub proof fn law_join_undoes_split(s: Seq<char>, sep: Seq<char>)
    requires
        sep.len() > 0,
    ensures
        join(split(s, sep), sep) == s,
        split(s, sep).len() > 0,
{
    lemma_join_split_from(s, sep, 0);
    lemma_split_from_nonempty(s, sep, 0);
    assert(s.subrange(0, s.len() as int) =~= s);
}

/// Calls `String::push`; trusted to append exactly the character `c`, as its
/// documentation says.
#[verifier::external_body]
pub(crate) fn push_char(s: &mut String, c: char)
    ensures
        final(s)@ == old(s)@.push(c),
{
    s.push(c);
}

/// Copies of the strings of `v`.
pub(crate) fn clone_strings(v: &Vec<String>) -> (r: Vec<String>)
    ensures
        views(r@) == views(v@),
{
    let mut r: Vec<String> = Vec::new();
    for i in 0..v.len()
        invariant
            r@.len() == i,
            forall|j: int| 0 <= j < i ==> #[trigger] r@[j]@ == v@[j]@,
    {
        r.push(v[i].clone());
    }
    assert(views(r@) =~= views(v@));
    r
}

/// The characters of `s`.
pub fn chars_of(s: &str) -> (r: Vec<char>)
    ensures
        r@ == s@,
{
    let n = s.unicode_len();
    let mut r: Vec<char> = Vec::new();
    for i in 0..n
        invariant
            n == s@.len(),
            r@ == s@.subrange(0, i as int),
    {
        let c = s.get_char(i);
        r.push(c);
        assert(r@ =~= s@.subrange(0, i + 1));
    }
    assert(r@ =~= s@);
    r
}

/// A string made of `chars[from..to]`.
pub fn string_of(chars: &Vec<char>, from: usize, to: usize) -> (s: String)
    requires
        from <= to <= chars.len(),
    ensures
        s@ == chars@.subrange(from as int, to as int),
{
    let mut s = String::new();
    let mut i = from;
    while i < to
        invariant
            from <= i <= to <= chars.len(),
            s@ == chars@.subrange(from as int, i as int),
        decreases to - i,
    {
        push_char(&mut s, chars[i]);
        i = i + 1;
        assert(s@ =~= chars@.subrange(from as int, i as int));
    }
    s
}

/// Whether `sep` occurs in `s` at index `i`.
fn matches_at(s: &Vec<char>, sep: &Vec<char>, i: usize) -> (r: bool)
    requires
        i + sep.len() <= s.len(),
    ensures
        r == occurs_at(s@, sep@, i as int),
{
    let mut j: usize = 0;
    while j < sep.len()
        invariant
            i + sep.len() <= s.len(),
            j <= sep.len(),
            forall|t: int| 0 <= t < j ==> s@[i + t] == sep@[t],
        decreases sep.len() - j,
    {
        if s[i + j] != sep[j] {
            assert(s@.subrange(i as int, i + sep.len())[j as int] != sep@[j as int]);
            return false;
        }
        j = j + 1;
    }
    assert(s@.subrange(i as int, i + sep.len()) =~= sep@);
    true
}

/// The first occurrence of `sep` in `s` at or after `from`.
fn find_from(s: &Vec<char>, sep: &Vec<char>, from: usize) -> (r: Option<usize>)
    requires
        from <= s.len(),
        sep.len() > 0,
    ensures
        match r {
            Some(k) => k as int == first_match(s@, sep@, from as int),
            None => first_match(s@, sep@, from as int) < 0,
        },
{
    let mut i = from;
    while i <= s.len() && sep.len() <= s.len() - i
        invariant
            from <= i <= s.len(),
            sep.len() > 0,
            first_match(s@, sep@, from as int) == first_match(s@, sep@, i as int),
        decreases s.len() - i,
    {
        if matches_at(s, sep, i) {
            return Some(i);
        }
        i = i + 1;
    }
    None
}

/// The pieces of `s` between the occurrences of the non-empty separator `sep`.
pub fn split_str(s: &str, sep: &str) -> (words: Vec<String>)
    requires
        sep@.len() > 0,
    ensures
        views(words@) == split(s@, sep@),
{
    let cs = chars_of(s);
    let sp = chars_of(sep);
    let mut words: Vec<String> = Vec::new();
    let mut pos: usize = 0;
    loop
        invariant_except_break
            pos <= cs.len(),
            sp@.len() > 0,
            split(cs@, sp@) == views(words@) + split_from(cs@, sp@, pos as int),
        ensures
            split(cs@, sp@) == views(words@),
        decreases cs.len() - pos,
    {
        let ghost before = words@;
        proof {
            lemma_first_match_bounds(cs@, sp@, pos as int);
        }
        match find_from(&cs, &sp, pos) {
            None => {
                let w = string_of(&cs, pos, cs.len());
                words.push(w);
                assert(views(words@) =~= views(before) + split_from(cs@, sp@, pos as int));
                break ;
            },
            Some(k) => {
                let w = string_of(&cs, pos, k);
                words.push(w);
                let next = k + sp.len();
                assert(views(words@) + split_from(cs@, sp@, next as int) =~= views(before)
                    + split_from(cs@, sp@, pos as int));
                pos = next;
            },
        }
    }
    words
}

/// Whether `words` holds a string equal to `w`.
pub fn contains_string(words: &Vec<String>, w: &String) -> (r: bool)
    ensures
        r == views(words@).contains(w@),
{
    for i in 0..words.len()
        invariant
            forall|t: int| 0 <= t < i ==> words@[t]@ != w@,
    {
        if words[i] == *w {
            assert(views(words@)[i as int] == w@);
            return true;
        }
    }
    assert forall|t: int| 0 <= t < views(words@).len() implies views(words@)[t] != w@ by {
        assert(views(words@)[t] == words@[t]@);
    }
    false
}

/// `Message::content_contains(search, split_by)` on a message with the given content.
pub fn content_contains(content: &Option<String>, search: &str, split_by: &str) -> (r: Option<
    Vec<String>,
>)
    requires
        split_by@.len() > 0,
    ensures
        match r {
            Some(words) => content_words(opt_view(*content), search@, split_by@) == Some(
                views(words@),
            ),
            None => content_words(opt_view(*content), search@, split_by@) is None,
        },
{
    match content {
        None => None,
        Some(c) => {
            let words = split_str(c.as_str(), split_by);
            let target = String::from_str(search);
            if contains_string(&words, &target) {
                Some(words)
            } else {
                None
            }
        },
    }
}

/// The characters that `str::replace` takes out of a user argument before it is
/// used as an id: the decoration of a mention (`<@id>`), spaces and line breaks.
pub open spec fn mention_marks() -> Seq<char> {
    seq!['<', '>', '@', ' ', '\n']
}

/// `s` with every character that occurs in `drop` taken out.
pub open spec fn without_chars(s: Seq<char>, drop: Seq<char>) -> Seq<char>
    decreases s.len(),
{
    if s.len() == 0 {
        seq![]
    } else if drop.contains(s.last()) {
        without_chars(s.drop_last(), drop)
    } else {
        without_chars(s.drop_last(), drop).push(s.last())
    }
}

fn is_mention_mark(c: char) -> (r: bool)
    ensures
        r == mention_marks().contains(c),
{
    let r = c == '<' || c == '>' || c == '@' || c == ' ' || c == '\n';
    proof {
        if r {
            if c == '<' {
                assert(mention_marks()[0] == c);
            } else if c == '>' {
                assert(mention_marks()[1] == c);
            } else if c == '@' {
                assert(mention_marks()[2] == c);
            } else if c == ' ' {
                assert(mention_marks()[3] == c);
            } else {
                assert(mention_marks()[4] == c);
            }
        }
    }
    r
}

/// `s.replace(['<', '>', '@', ' ', '\n'], "")`: a mention such as `<@ID>` becomes `ID`.
pub fn strip_mention(s: &str) -> (r: String)
    ensures
        r@ == without_chars(s@, mention_marks()),
{
    let cs = chars_of(s);
    let mut r = String::new();
    for i in 0..cs.len()
        invariant
            cs@ == s@,
            r@ == without_chars(s@.subrange(0, i as int), mention_marks()),
    {
        let c = cs[i];
        assert(s@.subrange(0, i + 1).drop_last() =~= s@.subrange(0, i as int));
        if !is_mention_mark(c) {
            push_char(&mut r, c);
        }
    }
    assert(s@.subrange(0, cs.len() as int) =~= s@);
    r
}

/// `c.to_ascii_lowercase()`.
pub open spec fn ascii_lower(c: char) -> char {
    if 'A' <= c && c <= 'Z' {
        ((c as u32) + 32) as char
    } else {
        c
    }
}

/// `s.to_ascii_lowercase()`: ASCII capitals become small letters, all else stays.
pub open spec fn lowercase(s: Seq<char>) -> Seq<char> {
    s.map_values(|c: char| ascii_lower(c))
}

fn lower_char(c: char) -> (r: char)
    ensures
        r == ascii_lower(c),
{
    if 'A' <= c && c <= 'Z' {
        let b: u8 = c as u8;
        assert(b as u32 == c as u32);
        (b + 32) as char
    } else {
        c
    }
}

/// `s.to_ascii_lowercase()`.
pub fn to_lowercase(s: &str) -> (r: String)
    ensures
        r@ == lowercase(s@),
{
    let cs = chars_of(s);
    let mut r = String::new();
    for i in 0..cs.len()
        invariant
            cs@ == s@,
            r@ == lowercase(s@.subrange(0, i as int)),
    {
        let c = lower_char(cs[i]);
        push_char(&mut r, c);
        assert(r@ =~= lowercase(s@.subrange(0, i + 1)));
    }
    assert(s@.subrange(0, cs.len() as int) =~= s@);
    r
}

/// Taking out the characters of `drop` keeps exactly the other characters, in
/// their order.
pub proof fn law_without_chars_is_filter(s: Seq<char>, drop: Seq<char>)
    ensures
        without_chars(s, drop) == s.filter(|c: char| !drop.contains(c)),
    decreases s.len(),
{
    reveal(Seq::filter);
    if s.len() > 0 {
        law_without_chars_is_filter(s.drop_last(), drop);
    }
}

proof fn lemma_first_match_is_first(s: Seq<char>, sep: Seq<char>, i: int)
    requires
        0 <= i,
        sep.len() > 0,
    ensures
        forall|j: int|
            i <= j && (first_match(s, sep, i) < 0 || j < first_match(s, sep, i)) ==> !#[trigger] occurs_at(
                s,
                sep,
                j,
            ),
    decreases s.len() - i,
{
    if i + sep.len() <= s.len() && !occurs_at(s, sep, i) {
        lemma_first_match_is_first(s, sep, i + 1);
    }
}

proof fn lemma_piece_free(s: Seq<char>, sep: Seq<char>, i: int, end: int)
    requires
        0 <= i <= end <= s.len(),
        sep.len() > 0,
        forall|j: int| i <= j && j + sep.len() <= end ==> !#[trigger] occurs_at(s, sep, j),
    ensures
        forall|t: int| !#[trigger] occurs_at(s.subrange(i, end), sep, t),
{
    let p = s.subrange(i, end);
    assert forall|t: int| !#[trigger] occurs_at(p, sep, t) by {
        if occurs_at(p, sep, t) {
            assert(s.subrange(i + t, i + t + sep.len()) =~= p.subrange(t, t + sep.len()));
            assert(occurs_at(s, sep, i + t));
        }
    }
}

proof fn lemma_split_from_pieces_free(s: Seq<char>, sep: Seq<char>, i: int)
    requires
        sep.len() > 0,
        0 <= i <= s.len(),
    ensures
        forall|k: int, t: int|
            0 <= k < split_from(s, sep, i).len() ==> !#[trigger] occurs_at(split_from(s, sep, i)[k], sep, t),
    decreases s.len() - i,
{
    let m = first_match(s, sep, i);
    lemma_first_match_bounds(s, sep, i);
    lemma_first_match_is_first(s, sep, i);
    let pieces = split_from(s, sep, i);
    if m < 0 {
        lemma_piece_free(s, sep, i, s.len() as int);
    } else {
        lemma_piece_free(s, sep, i, m);
        lemma_split_from_pieces_free(s, sep, m + sep.len());
        let rest = split_from(s, sep, m + sep.len());
        assert forall|k: int, t: int| 0 <= k < pieces.len() implies !#[trigger] occurs_at(pieces[k], sep, t) by {
            if k > 0 {
                assert(pieces[k] == rest[k - 1]);
            }
        }
    }
}

/// No piece of a split holds the separator: splitting cuts at every occurrence.
pub proof fn law_split_pieces_hold_no_separator(s: Seq<char>, sep: Seq<char>)
    requires
        sep.len() > 0,
    ensures
        forall|k: int, t: int|
            0 <= k < split(s, sep).len() ==> !#[trigger] occurs_at(split(s, sep)[k], sep, t),
{
    lemma_split_from_pieces_free(s, sep, 0);
}

} // verus!
