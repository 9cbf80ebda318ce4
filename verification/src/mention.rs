use vstd::prelude::*;
use crate::text::views;

verus! {

/// How many mentions one message may hold, so that it stays under the chat's
/// limit of 2000 characters.
pub const MENTIONS_PER_MESSAGE: usize = 66;

/// The line that mentions the member `id`: a line break and `<@id>`.
pub open spec fn mention_line(id: Seq<char>) -> Seq<char> {
    "\n<@"@ + id + ">"@
}

/// The pieces written one after the other.
pub open spec fn concat_all(parts: Seq<Seq<char>>) -> Seq<char>
    decreases parts.len(),
{
    if parts.len() == 0 {
        seq![]
    } else {
        parts[0] + concat_all(parts.drop_first())
    }
}

/// The lines cut into consecutive groups of `MENTIONS_PER_MESSAGE`; the last group
/// holds the rest.
pub open spec fn groups(lines: Seq<Seq<char>>) -> Seq<Seq<Seq<char>>>
    decreases lines.len(),
{
    if lines.len() <= MENTIONS_PER_MESSAGE {
        seq![lines]
    } else {
        seq![lines.take(MENTIONS_PER_MESSAGE as int)] + groups(
            lines.skip(MENTIONS_PER_MESSAGE as int),
        )
    }
}

/// The mention lines of the members `ids`.
pub open spec fn mention_lines(ids: Seq<Seq<char>>) -> Seq<Seq<char>> {
    ids.map_values(|id: Seq<char>| mention_line(id))
}

/// How the mass mention of a server's members is sent.
pub enum MentionPlan {
    /// Fewer members than fit in one message: send all lines as one message.
    Single(String),
    /// Otherwise send one message per group of lines.
    Batches(Vec<String>),
}

pub enum MentionPlanView {
    Single(Seq<char>),
    Batches(Seq<Seq<char>>),
}

impl View for MentionPlan {
    type V = MentionPlanView;

    open spec fn view(&self) -> MentionPlanView {
        match self {
            MentionPlan::Single(s) => MentionPlanView::Single(s@),
            MentionPlan::Batches(b) => MentionPlanView::Batches(views(b@)),
        }
    }
}

/// The plan of `mention::process` for the members `ids`.
pub open spec fn mention_plan(ids: Seq<Seq<char>>) -> MentionPlanView {
    let lines = mention_lines(ids);
    if lines.len() < MENTIONS_PER_MESSAGE {
        MentionPlanView::Single(concat_all(lines))
    } else {
        MentionPlanView::Batches(groups(lines).map_values(|g: Seq<Seq<char>>| concat_all(g)))
    }
}

/// The mass mention is asked for by the word `everyone` after the command.
pub open spec fn wants_everyone(words: Seq<Seq<char>>) -> bool {
    words.len() > 2 && words[2] == "everyone"@
}

pub proof fn lemma_concat_append(a: Seq<Seq<char>>, b: Seq<Seq<char>>)
    ensures
        concat_all(a + b) == concat_all(a) + concat_all(b),
    decreases a.len(),
{
    if a.len() == 0 {
        assert(a + b =~= b);
    } else {
        lemma_concat_append(a.drop_first(), b);
        assert((a + b).drop_first() =~= a.drop_first() + b);
    }
}

pub proof fn lemma_concat_push(a: Seq<Seq<char>>, x: Seq<char>)
    ensures
        concat_all(a.push(x)) == concat_all(a) + x,
{
    lemma_concat_append(a, seq![x]);
    assert(a.push(x) =~= a + seq![x]);
    assert(concat_all(seq![x]) == x + concat_all(seq![x].drop_first()));
    assert(concat_all(seq![x].drop_first()) == Seq::<char>::empty());
}

pub proof fn lemma_concat_length(parts: Seq<Seq<char>>, bound: nat)
    requires
        forall|i: int| 0 <= i < parts.len() ==> #[trigger] parts[i].len() <= bound,
    ensures
        concat_all(parts).len() <= parts.len() * bound,
    decreases parts.len(),
{
    if parts.len() > 0 {
        assert forall|i: int| 0 <= i < parts.drop_first().len() implies #[trigger] parts.drop_first()[i].len() <= bound by {
            assert(parts.drop_first()[i] == parts[i + 1]);
        }
        lemma_concat_length(parts.drop_first(), bound);
        assert(parts[0].len() <= bound);
        assert((parts.len() - 1) * bound + bound == parts.len() * bound) by (nonlinear_arith);
    }
}

/// Cutting the lines into groups loses none and adds none: the groups, written one
/// after the other, are the lines in their order; each group holds between one and
/// `MENTIONS_PER_MESSAGE` lines.
pub proof fn law_groups_partition(lines: Seq<Seq<char>>)
    requires
        lines.len() > 0,
    ensures
        concat_all(groups(lines).map_values(|g: Seq<Seq<char>>| concat_all(g))) == concat_all(
            lines,
        ),
        forall|i: int|
            0 <= i < groups(lines).len() ==> 1 <= #[trigger] groups(lines)[i].len()
                <= MENTIONS_PER_MESSAGE,
    decreases lines.len(),
{
    let gs = groups(lines);
    if lines.len() <= MENTIONS_PER_MESSAGE {
        let texts = gs.map_values(|g: Seq<Seq<char>>| concat_all(g));
        assert(texts =~= seq![concat_all(lines)]);
        lemma_concat_push(Seq::<Seq<char>>::empty(), concat_all(lines));
        assert(Seq::<Seq<char>>::empty().push(concat_all(lines)) =~= texts);
    } else {
        let head = lines.take(MENTIONS_PER_MESSAGE as int);
        let tail = lines.skip(MENTIONS_PER_MESSAGE as int);
        law_groups_partition(tail);
        let texts = gs.map_values(|g: Seq<Seq<char>>| concat_all(g));
        let tail_texts = groups(tail).map_values(|g: Seq<Seq<char>>| concat_all(g));
        assert(texts =~= seq![concat_all(head)] + tail_texts);
        assert(texts.drop_first() =~= tail_texts);
        lemma_concat_append(head, tail);
        assert(head + tail =~= lines);
        assert forall|i: int| 0 <= i < gs.len() implies 1 <= #[trigger] gs[i].len()
            <= MENTIONS_PER_MESSAGE by {
            if i > 0 {
                assert(gs[i] == groups(tail)[i - 1]);
            }
        }
    }
}

/// Every message of a mass mention stays within the chat's limit of 2000 characters
/// when member ids are at most 26 characters long (as the chat's ids are).
pub proof fn law_messages_fit(ids: Seq<Seq<char>>)
    requires
        forall|i: int| 0 <= i < ids.len() ==> #[trigger] ids[i].len() <= 26,
    ensures
        match mention_plan(ids) {
            MentionPlanView::Single(t) => t.len() <= 2000,
            MentionPlanView::Batches(b) => forall|i: int|
                0 <= i < b.len() ==> #[trigger] b[i].len() <= 2000,
        },
{
    let lines = mention_lines(ids);
    reveal_strlit("\n<@");
    reveal_strlit(">");
    assert forall|i: int| 0 <= i < lines.len() implies #[trigger] lines[i].len() <= 30 by {
        assert(lines[i] == mention_line(ids[i]));
    }
    if lines.len() < MENTIONS_PER_MESSAGE {
        lemma_concat_length(lines, 30);
        assert(lines.len() * 30 <= 2000) by (nonlinear_arith)
            requires
                lines.len() < 66,
        ;
    } else {
        law_groups_partition(lines);
        lemma_groups_bound(lines, 30);
        let gs = groups(lines);
        assert forall|i: int| 0 <= i < gs.len() implies #[trigger] concat_all(gs[i]).len() <= 2000 by {
            assert(forall|j: int| 0 <= j < gs[i].len() ==> #[trigger] gs[i][j].len() <= 30);
            lemma_concat_length(gs[i], 30);
            let n = gs[i].len();
            assert(n * 30 <= 2000) by (nonlinear_arith)
                requires
                    n <= 66,
            ;
        }
    }
}

/// A bound on the length of every line holds for every line of every group.
pub proof fn lemma_groups_bound(lines: Seq<Seq<char>>, bound: nat)
    requires
        forall|k: int| 0 <= k < lines.len() ==> #[trigger] lines[k].len() <= bound,
    ensures
        forall|i: int, j: int|
            0 <= i < groups(lines).len() && 0 <= j < groups(lines)[i].len() ==> #[trigger] groups(
                lines,
            )[i][j].len() <= bound,
    decreases lines.len(),
{
    let gs = groups(lines);
    if lines.len() > MENTIONS_PER_MESSAGE {
        let tail = lines.skip(MENTIONS_PER_MESSAGE as int);
        assert forall|k: int| 0 <= k < tail.len() implies #[trigger] tail[k].len() <= bound by {
            assert(tail[k] == lines[k + MENTIONS_PER_MESSAGE]);
        }
        lemma_groups_bound(tail, bound);
        assert forall|i: int, j: int|
            0 <= i < gs.len() && 0 <= j < gs[i].len() implies #[trigger] gs[i][j].len() <= bound by {
            if i == 0 {
                assert(gs[0][j] == lines[j]);
            } else {
                assert(gs[i] == groups(tail)[i - 1]);
            }
        }
    } else {
        assert forall|i: int, j: int|
            0 <= i < gs.len() && 0 <= j < gs[i].len() implies #[trigger] gs[i][j].len() <= bound by {
            assert(gs[i][j] == lines[j]);
        }
    }
}

/// Whether the command asks for a mass mention (`convec.get(2) == Some("everyone")`).
pub fn is_everyone(words: &Vec<String>) -> (r: bool)
    ensures
        r == wants_everyone(views(words@)),
{
    if words.len() > 2 {
        let t = String::from_str("everyone");
        assert(views(words@)[2] == words@[2]@);
        words[2] == t
    } else {
        false
    }
}

/// The lines written one after the other, from `from` up to `to`.
fn concat_range(lines: &Vec<String>, from: usize, to: usize) -> (s: String)
    requires
        from <= to <= lines.len(),
    ensures
        s@ == concat_all(views(lines@).subrange(from as int, to as int)),
{
    let mut s = String::new();
    let mut i = from;
    assert(views(lines@).subrange(from as int, from as int) =~= Seq::<Seq<char>>::empty());
    while i < to
        invariant
            from <= i <= to <= lines.len(),
            s@ == concat_all(views(lines@).subrange(from as int, i as int)),
        decreases to - i,
    {
        proof {
            lemma_concat_push(views(lines@).subrange(from as int, i as int), lines@[i as int]@);
            assert(views(lines@).subrange(from as int, i as int).push(lines@[i as int]@)
                =~= views(lines@).subrange(from as int, i + 1));
        }
        s.append(lines[i].as_str());
        i = i + 1;
    }
    s
}

/// The plan for mentioning the members `ids`: one message, or one message per
/// group of `MENTIONS_PER_MESSAGE` mentions.
pub fn plan_mentions(ids: &Vec<String>) -> (p: MentionPlan)
    ensures
        p@ == mention_plan(views(ids@)),
{
    let mut lines: Vec<String> = Vec::new();
    for i in 0..ids.len()
        invariant
            views(lines@) == mention_lines(views(ids@.subrange(0, i as int))),
    {
        let mut line = String::from_str("\n<@");
        line.append(ids[i].as_str());
        line.append(">");
        assert(line@ == mention_line(ids@[i as int]@));
        let ghost before = views(lines@);
        lines.push(line);
        assert(views(lines@) =~= before.push(line@));
        assert(views(ids@.subrange(0, i + 1)) =~= views(ids@.subrange(0, i as int)).push(
            ids@[i as int]@,
        ));
        assert(views(lines@) =~= mention_lines(views(ids@.subrange(0, i + 1))));
    }
    assert(ids@.subrange(0, ids.len() as int) =~= ids@);
    let ghost all = views(lines@);
    let n = lines.len();
    if n < MENTIONS_PER_MESSAGE {
        assert(views(lines@).subrange(0, n as int) =~= all);
        return MentionPlan::Single(concat_range(&lines, 0, n));
    }
    let mut batches: Vec<String> = Vec::new();
    let mut start: usize = 0;
    assert(all.skip(0) =~= all);
    loop
        invariant_except_break
            start <= n,
            n == lines.len(),
            all == views(lines@),
            n - start >= 1,
            groups(all).map_values(|g: Seq<Seq<char>>| concat_all(g)) == views(batches@)
                + groups(all.skip(start as int)).map_values(|g: Seq<Seq<char>>| concat_all(g)),
        ensures
            groups(all).map_values(|g: Seq<Seq<char>>| concat_all(g)) == views(batches@),
        decreases n - start,
    {
        let ghost rest = all.skip(start as int);
        let ghost before = views(batches@);
        if n - start <= MENTIONS_PER_MESSAGE {
            let t = concat_range(&lines, start, n);
            assert(all.subrange(start as int, n as int) =~= rest);
            batches.push(t);
            assert(groups(rest).map_values(|g: Seq<Seq<char>>| concat_all(g)) =~= seq![t@]);
            assert(views(batches@) =~= before + seq![t@]);
            break;
        }
        let end = start + MENTIONS_PER_MESSAGE;
        let t = concat_range(&lines, start, end);
        assert(all.subrange(start as int, end as int) =~= rest.take(MENTIONS_PER_MESSAGE as int));
        assert(rest.skip(MENTIONS_PER_MESSAGE as int) =~= all.skip(end as int));
        batches.push(t);
        let ghost tail_texts = groups(all.skip(end as int)).map_values(
            |g: Seq<Seq<char>>| concat_all(g),
        );
        assert(groups(rest).map_values(|g: Seq<Seq<char>>| concat_all(g)) =~= seq![t@]
            + tail_texts);
        assert(views(batches@) =~= before.push(t@));
        assert(before + (seq![t@] + tail_texts) =~= views(batches@) + tail_texts);
        start = end;
    }
    MentionPlan::Batches(batches)
}

/// Every group but the last holds exactly `MENTIONS_PER_MESSAGE` lines, so no
/// message is sent that could have held more mentions.
pub proof fn law_groups_are_full(lines: Seq<Seq<char>>)
    ensures
        forall|i: int|
            0 <= i < groups(lines).len() - 1 ==> #[trigger] groups(lines)[i].len()
                == MENTIONS_PER_MESSAGE,
    decreases lines.len(),
{
    if lines.len() > MENTIONS_PER_MESSAGE {
        let tail = lines.skip(MENTIONS_PER_MESSAGE as int);
        law_groups_are_full(tail);
        let gs = groups(lines);
        assert forall|i: int| 0 <= i < gs.len() - 1 implies #[trigger] gs[i].len()
            == MENTIONS_PER_MESSAGE by {
            if i > 0 {
                assert(gs[i] == groups(tail)[i - 1]);
            }
        }
    }
}

/// One message is sent when there are fewer members than fit in one, and then it
/// holds a `\n<@ID>` line for each member in order; otherwise one message per
/// group is sent.
pub proof fn law_single_message_below_limit(ids: Seq<Seq<char>>)
    ensures
        mention_plan(ids) is Single <==> ids.len() < MENTIONS_PER_MESSAGE,
        ids.len() < MENTIONS_PER_MESSAGE ==> mention_plan(ids) == MentionPlanView::Single(
            concat_all(ids.map_values(|id: Seq<char>| "\n<@"@ + id + ">"@)),
        ),
        ids.len() >= MENTIONS_PER_MESSAGE ==> mention_plan(ids) == MentionPlanView::Batches(
            groups(ids.map_values(|id: Seq<char>| "\n<@"@ + id + ">"@)).map_values(
                |g: Seq<Seq<char>>| concat_all(g),
            ),
        ),
{
    assert(mention_lines(ids) =~= ids.map_values(|id: Seq<char>| "\n<@"@ + id + ">"@));
}

} // verus!
