use vstd::prelude::*;
use crate::text::{clone_strings, lowercase, to_lowercase, views};

verus! {

/// A channel category of a server.
pub struct Category {
    pub id: String,
    pub title: String,
    pub channels: Vec<String>,
}

pub struct CategoryView {
    pub id: Seq<char>,
    pub title: Seq<char>,
    pub channels: Seq<Seq<char>>,
}

impl View for Category {
    type V = CategoryView;

    open spec fn view(&self) -> CategoryView {
        CategoryView { id: self.id@, title: self.title@, channels: views(self.channels@) }
    }
}

/// The views of a list of categories.
pub open spec fn category_views(cats: Seq<Category>) -> Seq<CategoryView> {
    cats.map_values(|c: Category| c@)
}

/// A role of a server: its id and its name.
pub struct NamedRole {
    pub id: String,
    pub name: String,
}

/// The name of the channel made for a ticket: `Issue-USERNAME-DISCRIMINATOR`.
pub open spec fn ticket_channel_name(username: Seq<char>, discriminator: Seq<char>) -> Seq<char> {
    "Issue-"@ + username + "-"@ + discriminator
}

/// The last of the first `n` categories whose title equals `title` when both are
/// lower-cased, or -1.
pub open spec fn last_title_match(cats: Seq<CategoryView>, title: Seq<char>, n: int) -> int
    decreases n,
{
    if n <= 0 || n > cats.len() {
        -1
    } else if lowercase(cats[n - 1].title) == lowercase(title) {
        n - 1
    } else {
        last_title_match(cats, title, n - 1)
    }
}

/// The categories after a new ticket channel was filed: the last category titled
/// `title` (ignoring ASCII case) is taken out and put back at the end with the
/// channel added. `None` when there is no such category or its id is empty.
pub open spec fn filed(cats: Seq<CategoryView>, title: Seq<char>, channel: Seq<char>) -> Option<
    Seq<CategoryView>,
> {
    let i = last_title_match(cats, title, cats.len() as int);
    if i < 0 || cats[i].id.len() == 0 {
        None
    } else {
        Some(
            cats.remove(i).push(
                CategoryView { channels: cats[i].channels.push(channel), ..cats[i] },
            ),
        )
    }
}

/// The id of the last role named `name`, or the empty text when none is.
pub open spec fn last_role_named(roles: Seq<(Seq<char>, Seq<char>)>, name: Seq<char>) -> Seq<char>
    decreases roles.len(),
{
    if roles.len() == 0 {
        seq![]
    } else if roles.last().1 == name {
        roles.last().0
    } else {
        last_role_named(roles.drop_last(), name)
    }
}

/// The (id, name) pairs of roles.
pub open spec fn role_pairs(roles: Seq<NamedRole>) -> Seq<(Seq<char>, Seq<char>)> {
    roles.map_values(|r: NamedRole| (r.id@, r.name@))
}

/// The walk by which a closed ticket's channel is taken out of a list: each index
/// `i` at which the original list holds `target` is removed from the list as it
/// stands by then. `None` when such an index is past the end of that list (there
/// the walk would panic).
pub open spec fn remove_walk(
    orig: Seq<Seq<char>>,
    target: Seq<char>,
    i: int,
    cur: Seq<Seq<char>>,
) -> Option<Seq<Seq<char>>>
    decreases orig.len() - i,
{
    if i < 0 || i >= orig.len() {
        Some(cur)
    } else if orig[i] == target {
        if i < cur.len() {
            remove_walk(orig, target, i + 1, cur.remove(i))
        } else {
            None
        }
    } else {
        remove_walk(orig, target, i + 1, cur)
    }
}

/// One category after a pass of the archiving of `channel`: archive categories get
/// the channel added, ticket categories lose it, others stay.
pub open spec fn archive_category(
    c: CategoryView,
    channel: Seq<char>,
    archive: Seq<char>,
    ticket: Seq<char>,
) -> Option<CategoryView> {
    if c.title == archive {
        Some(CategoryView { channels: c.channels.push(channel), ..c })
    } else if c.title == ticket {
        match remove_walk(c.channels, channel, 0, c.channels) {
            Some(chs) => Some(CategoryView { channels: chs, ..c }),
            None => None,
        }
    } else {
        Some(c)
    }
}

/// One pass of the archiving over all categories.
pub open spec fn archive_pass(
    cats: Seq<CategoryView>,
    channel: Seq<char>,
    archive: Seq<char>,
    ticket: Seq<char>,
) -> Option<Seq<CategoryView>>
    decreases cats.len(),
{
    if cats.len() == 0 {
        Some(seq![])
    } else {
        match (
            archive_pass(cats.drop_last(), channel, archive, ticket),
            archive_category(cats.last(), channel, archive, ticket),
        ) {
            (Some(front), Some(c)) => Some(front.push(c)),
            _ => None,
        }
    }
}

/// `k` passes of the archiving.
pub open spec fn archive_repeat(
    cats: Seq<CategoryView>,
    channel: Seq<char>,
    archive: Seq<char>,
    ticket: Seq<char>,
    k: nat,
) -> Option<Seq<CategoryView>>
    decreases k,
{
    if k == 0 {
        Some(cats)
    } else {
        match archive_pass(cats, channel, archive, ticket) {
            Some(next) => archive_repeat(next, channel, archive, ticket, (k - 1) as nat),
            None => None,
        }
    }
}

/// How many times `x` occurs in `s`.
pub open spec fn count_in(s: Seq<Seq<char>>, x: Seq<char>) -> nat
    decreases s.len(),
{
    if s.len() == 0 {
        0
    } else {
        count_in(s.drop_last(), x) + if s.last() == x {
            1nat
        } else {
            0nat
        }
    }
}

/// How many times `channel` is listed over all categories.
pub open spec fn occurrences(cats: Seq<CategoryView>, channel: Seq<char>) -> nat
    decreases cats.len(),
{
    if cats.len() == 0 {
        0
    } else {
        occurrences(cats.drop_last(), channel) + count_in(cats.last().channels, channel)
    }
}

/// The categories after `ticket_complete` closed the ticket channel `channel`: one
/// pass of the archiving for each time the channel is listed. `None` where the
/// original would panic.
pub open spec fn archived(
    cats: Seq<CategoryView>,
    channel: Seq<char>,
    archive: Seq<char>,
    ticket: Seq<char>,
) -> Option<Seq<CategoryView>> {
    archive_repeat(cats, channel, archive, ticket, occurrences(cats, channel))
}

/// How many categories list `channel` (each such category closes the ticket once).
pub open spec fn categories_holding(cats: Seq<CategoryView>, channel: Seq<char>) -> nat
    decreases cats.len(),
{
    if cats.len() == 0 {
        0
    } else {
        categories_holding(cats.drop_last(), channel) + if cats.last().channels.contains(
            channel,
        ) {
            1nat
        } else {
            0nat
        }
    }
}

/// The name of the channel of a new ticket.
pub fn ticket_name(username: &str, discriminator: &str) -> (s: String)
    ensures
        s@ == ticket_channel_name(username@, discriminator@),
{
    let mut s = String::from_str("Issue-");
    s.append(username);
    s.append("-");
    s.append(discriminator);
    s
}

/// A ticket may be lodged only from the text channel named `start_channel`
/// (`name` is `None` for other kinds of channel).
pub fn may_lodge(name: &Option<String>, start_channel: &String) -> (r: bool)
    ensures
        r == (name matches Some(n) && n@ == start_channel@),
{
    match name {
        Some(n) => *n == *start_channel,
        None => false,
    }
}

fn clone_category(c: &Category) -> (r: Category)
    ensures
        r@ == c@,
{
    Category { id: c.id.clone(), title: c.title.clone(), channels: clone_strings(&c.channels) }
}

fn clone_categories(v: &Vec<Category>) -> (r: Vec<Category>)
    ensures
        category_views(r@) == category_views(v@),
{
    let mut r: Vec<Category> = Vec::new();
    for i in 0..v.len()
        invariant
            r@.len() == i,
            forall|j: int| 0 <= j < i ==> #[trigger] r@[j]@ == v@[j]@,
    {
        r.push(clone_category(&v[i]));
    }
    assert(category_views(r@) =~= category_views(v@));
    r
}

/// Files the new ticket channel `channel` under the last category titled
/// `ticket_category` (ignoring ASCII case). `None` when no such category exists or
/// its id is empty; the original then leaves the server unchanged.
pub fn file_ticket(cats: &Vec<Category>, ticket_category: &str, channel: &str) -> (r: Option<
    Vec<Category>,
>)
    ensures
        match r {
            Some(v) => filed(category_views(cats@), ticket_category@, channel@) == Some(
                category_views(v@),
            ),
            None => filed(category_views(cats@), ticket_category@, channel@) is None,
        },
{
    let ghost cv = category_views(cats@);
    let target = to_lowercase(ticket_category);
    let mut found: Option<usize> = None;
    for i in 0..cats.len()
        invariant
            cv == category_views(cats@),
            target@ == lowercase(ticket_category@),
            match found {
                Some(k) => k < i && k as int == last_title_match(cv, ticket_category@, i as int),
                None => last_title_match(cv, ticket_category@, i as int) == -1,
            },
    {
        let t = to_lowercase(cats[i].title.as_str());
        assert(cv[i as int] == cats@[i as int]@);
        if t == target {
            found = Some(i);
        }
    }
    match found {
        None => None,
        Some(k) => {
            assert(cv[k as int] == cats@[k as int]@);
            if cats[k].id.unicode_len() == 0 {
                return None;
            }
            let mut v = clone_categories(cats);
            let mut c = v.remove(k);
            let extra = String::from_str(channel);
            c.channels.push(extra);
            assert(views(c.channels@) =~= cv[k as int].channels.push(channel@));
            let ghost removed = v@;
            v.push(c);
            assert(category_views(removed) =~= cv.remove(k as int));
            assert(category_views(v@) =~= category_views(removed).push(c@));
            Some(v)
        },
    }
}

/// The id of the last role named `name`, or an empty string.
pub fn find_role_id(roles: &Vec<NamedRole>, name: &String) -> (r: String)
    ensures
        r@ == last_role_named(role_pairs(roles@), name@),
{
    let mut r = String::new();
    for i in 0..roles.len()
        invariant
            r@ == last_role_named(role_pairs(roles@.subrange(0, i as int)), name@),
    {
        assert(role_pairs(roles@.subrange(0, i + 1)).drop_last() =~= role_pairs(
            roles@.subrange(0, i as int),
        ));
        if roles[i].name == *name {
            r = roles[i].id.clone();
        }
    }
    assert(roles@.subrange(0, roles.len() as int) =~= roles@);
    r
}

fn walk_out(orig: &Vec<String>, target: &String) -> (r: Option<Vec<String>>)
    ensures
        match r {
            Some(v) => remove_walk(views(orig@), target@, 0, views(orig@)) == Some(views(v@)),
            None => remove_walk(views(orig@), target@, 0, views(orig@)) is None,
        },
{
    let ghost o = views(orig@);
    let mut cur = clone_strings(orig);
    for i in 0..orig.len()
        invariant
            o == views(orig@),
            remove_walk(o, target@, 0, o) == remove_walk(o, target@, i as int, views(cur@)),
    {
        assert(o[i as int] == orig@[i as int]@);
        if orig[i] == *target {
            if i < cur.len() {
                let ghost before = views(cur@);
                cur.remove(i);
                assert(views(cur@) =~= before.remove(i as int));
            } else {
                return None;
            }
        }
    }
    Some(cur)
}

fn archive_one(c: &Category, channel: &String, archive: &String, ticket: &String) -> (r: Option<
    Category,
>)
    ensures
        match r {
            Some(x) => archive_category(c@, channel@, archive@, ticket@) == Some(x@),
            None => archive_category(c@, channel@, archive@, ticket@) is None,
        },
{
    if c.title == *archive {
        let mut x = clone_category(c);
        x.channels.push(channel.clone());
        assert(x@.channels =~= c@.channels.push(channel@));
        Some(x)
    } else if c.title == *ticket {
        match walk_out(&c.channels, channel) {
            Some(chs) => Some(Category { id: c.id.clone(), title: c.title.clone(), channels: chs }),
            None => None,
        }
    } else {
        Some(clone_category(c))
    }
}

fn pass(cats: &Vec<Category>, channel: &String, archive: &String, ticket: &String) -> (r: Option<
    Vec<Category>,
>)
    ensures
        match r {
            Some(v) => archive_pass(category_views(cats@), channel@, archive@, ticket@) == Some(
                category_views(v@),
            ),
            None => archive_pass(category_views(cats@), channel@, archive@, ticket@) is None,
        },
{
    let ghost cv = category_views(cats@);
    let mut out: Vec<Category> = Vec::new();
    for i in 0..cats.len()
        invariant
            cv == category_views(cats@),
            archive_pass(cv.subrange(0, i as int), channel@, archive@, ticket@) == Some(
                category_views(out@),
            ),
    {
        assert(cv.subrange(0, i + 1).drop_last() =~= cv.subrange(0, i as int));
        assert(cv.subrange(0, i + 1).last() == cats@[i as int]@);
        match archive_one(&cats[i], channel, archive, ticket) {
            Some(x) => {
                let ghost before = out@;
                out.push(x);
                assert(category_views(out@) =~= category_views(before).push(x@));
            },
            None => {
                proof {
                    lemma_pass_fails_on_prefix(cv, channel@, archive@, ticket@, i + 1);
                }
                return None;
            },
        }
    }
    assert(cv.subrange(0, cats.len() as int) =~= cv);
    Some(out)
}

proof fn lemma_pass_fails_on_prefix(
    cats: Seq<CategoryView>,
    channel: Seq<char>,
    archive: Seq<char>,
    ticket: Seq<char>,
    n: int,
)
    requires
        0 <= n <= cats.len(),
        archive_pass(cats.subrange(0, n), channel, archive, ticket) is None,
    ensures
        archive_pass(cats, channel, archive, ticket) is None,
    decreases cats.len() - n,
{
    if n < cats.len() {
        assert(cats.subrange(0, n + 1).drop_last() =~= cats.subrange(0, n));
        lemma_pass_fails_on_prefix(cats, channel, archive, ticket, n + 1);
    } else {
        assert(cats.subrange(0, n) =~= cats);
    }
}

fn count_channel(cats: &Vec<Category>, channel: &String) -> (r: u64)
    requires
        occurrences(category_views(cats@), channel@) <= u64::MAX,
    ensures
        r == occurrences(category_views(cats@), channel@),
{
    let ghost cv = category_views(cats@);
    let mut total: u64 = 0;
    for i in 0..cats.len()
        invariant
            cv == category_views(cats@),
            total == occurrences(cv.subrange(0, i as int), channel@),
            occurrences(cv, channel@) <= u64::MAX,
    {
        assert(cv.subrange(0, i + 1).drop_last() =~= cv.subrange(0, i as int));
        assert(cv.subrange(0, i + 1).last() == cats@[i as int]@);
        let chs = &cats[i].channels;
        let mut n: u64 = 0;
        for j in 0..chs.len()
            invariant
                n == count_in(views(chs@).subrange(0, j as int), channel@),
                n <= j,
        {
            assert(views(chs@).subrange(0, j + 1).drop_last() =~= views(chs@).subrange(
                0,
                j as int,
            ));
            if chs[j] == *channel {
                n = n + 1;
            }
        }
        assert(views(chs@).subrange(0, chs.len() as int) =~= views(chs@));
        proof {
            lemma_occurrences_prefix(cv, channel@, i + 1);
        }
        total = total + n;
    }
    assert(cv.subrange(0, cats.len() as int) =~= cv);
    total
}

proof fn lemma_occurrences_prefix(cats: Seq<CategoryView>, channel: Seq<char>, n: int)
    requires
        0 <= n <= cats.len(),
    ensures
        occurrences(cats.subrange(0, n), channel) <= occurrences(cats, channel),
    decreases cats.len() - n,
{
    if n < cats.len() {
        lemma_occurrences_prefix(cats, channel, n + 1);
        assert(cats.subrange(0, n + 1).drop_last() =~= cats.subrange(0, n));
    } else {
        assert(cats.subrange(0, n) =~= cats);
    }
}

/// The categories after the ticket channel `channel` was closed (`ticket_complete`):
/// for each time the channel is listed, every category titled `archive_category`
/// gets the channel added and every category titled `ticket_category` loses it.
pub fn archive_ticket(
    cats: &Vec<Category>,
    channel: &String,
    archive_category: &String,
    ticket_category: &String,
) -> (r: Vec<Category>)
    requires
        archived(category_views(cats@), channel@, archive_category@, ticket_category@) is Some,
        occurrences(category_views(cats@), channel@) <= u64::MAX,
    ensures
        archived(category_views(cats@), channel@, archive_category@, ticket_category@) == Some(
            category_views(r@),
        ),
{
    let ghost cv = category_views(cats@);
    let k = count_channel(cats, channel);
    let mut cur = clone_categories(cats);
    let mut done: u64 = 0;
    while done < k
        invariant
            done <= k,
            k == occurrences(cv, channel@),
            archived(cv, channel@, archive_category@, ticket_category@) == archive_repeat(
                category_views(cur@),
                channel@,
                archive_category@,
                ticket_category@,
                (k - done) as nat,
            ),
            archive_repeat(
                category_views(cur@),
                channel@,
                archive_category@,
                ticket_category@,
                (k - done) as nat,
            ) is Some,
        decreases k - done,
    {
        match pass(&cur, channel, archive_category, ticket_category) {
            Some(next) => {
                cur = next;
            },
            None => {
                assert(false);
                return cur;
            },
        }
        done = done + 1;
    }
    cur
}

/// How many categories list `channel`.
pub fn count_holding(cats: &Vec<Category>, channel: &String) -> (r: usize)
    ensures
        r == categories_holding(category_views(cats@), channel@),
{
    let ghost cv = category_views(cats@);
    let mut total: usize = 0;
    for i in 0..cats.len()
        invariant
            cv == category_views(cats@),
            total == categories_holding(cv.subrange(0, i as int), channel@),
            total <= i,
    {
        assert(cv.subrange(0, i + 1).drop_last() =~= cv.subrange(0, i as int));
        assert(cv.subrange(0, i + 1).last() == cats@[i as int]@);
        if crate::text::contains_string(&cats[i].channels, channel) {
            total = total + 1;
        }
    }
    assert(cv.subrange(0, cats.len() as int) =~= cv);
    total
}

proof fn lemma_count_at_least(s: Seq<Seq<char>>, x: Seq<char>, p: int, q: int)
    requires
        0 <= p < s.len(),
        0 <= q < s.len(),
        s[p] == x,
        s[q] == x,
    ensures
        count_in(s, x) >= 1,
        p != q ==> count_in(s, x) >= 2,
    decreases s.len(),
{
    let t = s.drop_last();
    let last = s.len() - 1;
    if p < last && q < last {
        lemma_count_at_least(t, x, p, q);
    } else if p < last {
        lemma_count_at_least(t, x, p, p);
    } else if q < last {
        lemma_count_at_least(t, x, q, q);
    }
}

proof fn lemma_occurrences_split(cats: Seq<CategoryView>, ch: Seq<char>, i: int, j: int)
    requires
        0 <= i < cats.len(),
        0 <= j < cats.len(),
    ensures
        count_in(cats[i].channels, ch) <= occurrences(cats, ch),
        i != j ==> count_in(cats[i].channels, ch) + count_in(cats[j].channels, ch) <= occurrences(
            cats,
            ch,
        ),
    decreases cats.len(),
{
    let t = cats.drop_last();
    let last = cats.len() - 1;
    if i < last && j < last {
        lemma_occurrences_split(t, ch, i, j);
    } else if i < last {
        lemma_occurrences_split(t, ch, i, i);
    } else if j < last {
        lemma_occurrences_split(t, ch, j, j);
    }
}

proof fn lemma_walk_clear(orig: Seq<Seq<char>>, t: Seq<char>, i: int, cur: Seq<Seq<char>>)
    requires
        0 <= i,
        forall|q: int| i <= q < orig.len() ==> orig[q] != t,
    ensures
        remove_walk(orig, t, i, cur) == Some(cur),
    decreases orig.len() - i,
{
    if i < orig.len() {
        lemma_walk_clear(orig, t, i + 1, cur);
    }
}

proof fn lemma_walk_single(orig: Seq<Seq<char>>, t: Seq<char>, i: int, p: int)
    requires
        0 <= i <= p < orig.len(),
        orig[p] == t,
        forall|q: int| 0 <= q < orig.len() && q != p ==> orig[q] != t,
    ensures
        remove_walk(orig, t, i, orig) == Some(orig.remove(p)),
    decreases orig.len() - i,
{
    if i < p {
        lemma_walk_single(orig, t, i + 1, p);
    } else {
        lemma_walk_clear(orig, t, p + 1, orig.remove(p));
    }
}

proof fn lemma_pass_elementwise(
    cats: Seq<CategoryView>,
    channel: Seq<char>,
    archive: Seq<char>,
    ticket: Seq<char>,
)
    requires
        forall|i: int|
            0 <= i < cats.len() ==> #[trigger] archive_category(cats[i], channel, archive, ticket)
                is Some,
    ensures
        archive_pass(cats, channel, archive, ticket) is Some,
        archive_pass(cats, channel, archive, ticket)->0.len() == cats.len(),
        forall|i: int|
            0 <= i < cats.len() ==> Some(#[trigger] archive_pass(cats, channel, archive, ticket)->0[i])
                == archive_category(cats[i], channel, archive, ticket),
    decreases cats.len(),
{
    if cats.len() > 0 {
        let front = cats.drop_last();
        assert forall|i: int| 0 <= i < front.len() implies #[trigger] archive_category(
            front[i],
            channel,
            archive,
            ticket,
        ) is Some by {
            assert(front[i] == cats[i]);
            assert(archive_category(cats[i], channel, archive, ticket) is Some);
        }
        lemma_pass_elementwise(front, channel, archive, ticket);
        assert(archive_category(cats[cats.len() - 1], channel, archive, ticket) is Some);
        let r = archive_pass(cats, channel, archive, ticket)->0;
        assert forall|i: int| 0 <= i < cats.len() implies Some(#[trigger] r[i]) == archive_category(
            cats[i],
            channel,
            archive,
            ticket,
        ) by {
            if i < cats.len() - 1 {
                assert(front[i] == cats[i]);
            }
        }
    }
}

/// Closing a ticket whose channel is listed exactly once, at position `p` of the
/// ticket category `j`, moves it to the archive: every archive category gets the
/// channel added, category `j` loses it, and every other category stays as it was.
pub proof fn law_closing_moves_ticket_to_archive(
    cats: Seq<CategoryView>,
    channel: Seq<char>,
    archive: Seq<char>,
    ticket: Seq<char>,
    j: int,
    p: int,
)
    requires
        occurrences(cats, channel) == 1,
        archive != ticket,
        0 <= j < cats.len(),
        cats[j].title == ticket,
        0 <= p < cats[j].channels.len(),
        cats[j].channels[p] == channel,
    ensures
        archived(cats, channel, archive, ticket) is Some,
        ({
            let r = archived(cats, channel, archive, ticket)->0;
            &&& r.len() == cats.len()
            &&& forall|i: int|
                0 <= i < cats.len() ==> #[trigger] r[i] == if cats[i].title == archive {
                    CategoryView { channels: cats[i].channels.push(channel), ..cats[i] }
                } else if i == j {
                    CategoryView { channels: cats[j].channels.remove(p), ..cats[j] }
                } else {
                    cats[i]
                }
        }),
{
    lemma_count_at_least(cats[j].channels, channel, p, p);
    assert forall|i: int| 0 <= i < cats.len() implies #[trigger] archive_category(
        cats[i],
        channel,
        archive,
        ticket,
    ) == Some(
        if cats[i].title == archive {
            CategoryView { channels: cats[i].channels.push(channel), ..cats[i] }
        } else if i == j {
            CategoryView { channels: cats[j].channels.remove(p), ..cats[j] }
        } else {
            cats[i]
        },
    ) by {
        lemma_occurrences_split(cats, channel, i, j);
        let chs = cats[i].channels;
        if i == j {
            assert forall|q: int| 0 <= q < chs.len() && q != p implies chs[q] != channel by {
                if chs[q] == channel {
                    lemma_count_at_least(chs, channel, p, q);
                }
            }
            lemma_walk_single(chs, channel, 0, p);
        } else {
            assert forall|q: int| 0 <= q < chs.len() implies chs[q] != channel by {
                if chs[q] == channel {
                    lemma_count_at_least(chs, channel, q, q);
                }
            }
            lemma_walk_clear(chs, channel, 0, chs);
        }
    }
    lemma_pass_elementwise(cats, channel, archive, ticket);
    let r = archive_pass(cats, channel, archive, ticket)->0;
    assert(archive_repeat(r, channel, archive, ticket, 0) == Some(r));
    assert(archived(cats, channel, archive, ticket) == Some(r));
}

proof fn lemma_occurrences_remove(cats: Seq<CategoryView>, ch: Seq<char>, i: int)
    requires
        0 <= i < cats.len(),
    ensures
        occurrences(cats.remove(i), ch) + count_in(cats[i].channels, ch) == occurrences(cats, ch),
    decreases cats.len(),
{
    let last = cats.len() - 1;
    if i == last {
        assert(cats.remove(i) =~= cats.drop_last());
    } else {
        lemma_occurrences_remove(cats.drop_last(), ch, i);
        assert(cats.remove(i).drop_last() =~= cats.drop_last().remove(i));
        assert(cats.remove(i).last() == cats.last());
    }
}

/// Filing a new ticket channel lists it exactly once more and changes the listing
/// of no other channel; the number of categories stays the same.
pub proof fn law_filing_lists_channel_once_more(
    cats: Seq<CategoryView>,
    title: Seq<char>,
    channel: Seq<char>,
    other: Seq<char>,
)
    requires
        filed(cats, title, channel) is Some,
        other != channel,
    ensures
        filed(cats, title, channel)->0.len() == cats.len(),
        occurrences(filed(cats, title, channel)->0, channel) == occurrences(cats, channel) + 1,
        occurrences(filed(cats, title, channel)->0, other) == occurrences(cats, other),
{
    let i = last_title_match(cats, title, cats.len() as int);
    lemma_last_title_match_bounds(cats, title, cats.len() as int);
    let c = cats[i];
    let moved = CategoryView { channels: c.channels.push(channel), ..c };
    let r = cats.remove(i).push(moved);
    assert(r.drop_last() =~= cats.remove(i));
    lemma_occurrences_remove(cats, channel, i);
    lemma_occurrences_remove(cats, other, i);
    assert(moved.channels.drop_last() =~= c.channels);
}

proof fn lemma_last_title_match_bounds(cats: Seq<CategoryView>, title: Seq<char>, n: int)
    ensures
        last_title_match(cats, title, n) < 0 || (0 <= last_title_match(cats, title, n) < n
            && last_title_match(cats, title, n) < cats.len()),
    decreases n,
{
    if n > 0 && n <= cats.len() && lowercase(cats[n - 1].title) != lowercase(title) {
        lemma_last_title_match_bounds(cats, title, n - 1);
    }
}

/// The role id that `last_role_named` gives is that of the last role with the name,
/// and the empty text when no role has the name.
pub proof fn law_last_role_named(roles: Seq<(Seq<char>, Seq<char>)>, name: Seq<char>)
    ensures
        (exists|i: int| 0 <= i < roles.len() && #[trigger] roles[i].1 == name) ==> exists|i: int|
            0 <= i < roles.len() && #[trigger] roles[i].1 == name && roles[i].0 == last_role_named(
                roles,
                name,
            ) && forall|j: int| i < j < roles.len() ==> #[trigger] roles[j].1 != name,
        (forall|i: int| 0 <= i < roles.len() ==> #[trigger] roles[i].1 != name) ==> last_role_named(
            roles,
            name,
        ) == Seq::<char>::empty(),
    decreases roles.len(),
{
    if roles.len() > 0 {
        let front = roles.drop_last();
        law_last_role_named(front, name);
        let last = roles.len() - 1;
        if roles.last().1 == name {
            assert(roles[last].1 == name);
        } else {
            if exists|i: int| 0 <= i < roles.len() && #[trigger] roles[i].1 == name {
                let i = choose|i: int| 0 <= i < roles.len() && #[trigger] roles[i].1 == name;
                assert(i != last);
                assert(front[i].1 == name);
                let k = choose|k: int|
                    0 <= k < front.len() && #[trigger] front[k].1 == name && front[k].0
                        == last_role_named(front, name) && forall|j: int|
                        k < j < front.len() ==> #[trigger] front[j].1 != name;
                assert(roles[k] == front[k]);
                assert forall|j: int| k < j < roles.len() implies #[trigger] roles[j].1 != name by {
                    if j < last {
                        assert(roles[j] == front[j]);
                    }
                }
            }
            assert forall|i: int| 0 <= i < front.len() && (forall|i: int|
                0 <= i < roles.len() ==> #[trigger] roles[i].1 != name) implies #[trigger] front[i].1
                != name by {
                assert(roles[i] == front[i]);
            }
        }
    }
}

proof fn lemma_last_title_match_is_last(cats: Seq<CategoryView>, title: Seq<char>, n: int)
    requires
        0 <= n <= cats.len(),
    ensures
        last_title_match(cats, title, n) >= 0 ==> {
            let i = last_title_match(cats, title, n);
            &&& 0 <= i < n
            &&& lowercase(cats[i].title) == lowercase(title)
            &&& forall|j: int| i < j < n ==> lowercase(#[trigger] cats[j].title) != lowercase(title)
        },
        last_title_match(cats, title, n) < 0 ==> forall|j: int|
            0 <= j < n ==> lowercase(#[trigger] cats[j].title) != lowercase(title),
    decreases n,
{
    if n > 0 && lowercase(cats[n - 1].title) != lowercase(title) {
        lemma_last_title_match_is_last(cats, title, n - 1);
    }
}

/// Filing a ticket channel takes the last category whose title equals the ticket
/// category's ignoring ASCII case, moves it to the end and adds the channel to its
/// list; it files nothing when no title matches or that category has no id.
pub proof fn law_filing_uses_last_matching_category(
    cats: Seq<CategoryView>,
    title: Seq<char>,
    channel: Seq<char>,
)
    ensures
        (forall|j: int| 0 <= j < cats.len() ==> lowercase(#[trigger] cats[j].title) != lowercase(title))
            ==> filed(cats, title, channel) is None,
        filed(cats, title, channel) is Some ==> exists|i: int|
            0 <= i < cats.len() && lowercase(#[trigger] cats[i].title) == lowercase(title) && (
            forall|j: int| i < j < cats.len() ==> lowercase(#[trigger] cats[j].title) != lowercase(title))
                && cats[i].id.len() > 0 && filed(cats, title, channel)->0 == cats.remove(i).push(
                CategoryView {
                    id: cats[i].id,
                    title: cats[i].title,
                    channels: cats[i].channels.push(channel),
                },
            ),
        (exists|i: int| 0 <= i < cats.len() && lowercase(#[trigger] cats[i].title) == lowercase(title)
            && cats[i].id.len() > 0 && forall|j: int| i < j < cats.len() ==> lowercase(
            #[trigger] cats[j].title,
        ) != lowercase(title)) ==> filed(cats, title, channel) is Some,
{
    lemma_last_title_match_is_last(cats, title, cats.len() as int);
    let k = last_title_match(cats, title, cats.len() as int);
    if exists|i: int| 0 <= i < cats.len() && lowercase(#[trigger] cats[i].title) == lowercase(title)
        && cats[i].id.len() > 0 && forall|j: int| i < j < cats.len() ==> lowercase(
        #[trigger] cats[j].title,
    ) != lowercase(title) {
        let i = choose|i: int| 0 <= i < cats.len() && lowercase(#[trigger] cats[i].title) == lowercase(
            title,
        ) && cats[i].id.len() > 0 && forall|j: int| i < j < cats.len() ==> lowercase(
            #[trigger] cats[j].title,
        ) != lowercase(title);
        if k < 0 {
            assert(lowercase(cats[i].title) != lowercase(title));
        } else if k < i {
            assert(lowercase(cats[i].title) != lowercase(title));
        } else if i < k {
            assert(lowercase(cats[k].title) != lowercase(title));
        }
    }
    if k >= 0 {
        assert(lowercase(cats[k].title) == lowercase(title));
    }
}

/// Closing a ticket whose channel is listed nowhere changes no category.
pub proof fn law_closing_unlisted_channel_changes_nothing(
    cats: Seq<CategoryView>,
    channel: Seq<char>,
    archive: Seq<char>,
    ticket: Seq<char>,
)
    requires
        occurrences(cats, channel) == 0,
    ensures
        archived(cats, channel, archive, ticket) == Some(cats),
{
}

} // verus!
