//! The listing of the configured targets.

use crate::targets::{entries_view, Config, ConfigView, Target, TargetView};
use crate::text::{
    append_padded, is_blank, is_white_space, padded, trim_end, trimmed_end,
    trimmed_end_of_concatenation,
};
use vstd::prelude::*;
use vstd::string::StringExecFns;

verus! {

/// The mark in front of a name: `*` on the active target.
pub open spec fn marker(name: Seq<char>, current: Option<Seq<char>>) -> Seq<char> {
    if current == Some(name) {
        "*"@
    } else {
        " "@
    }
}

/// One line of the listing: mark, name, type and label, in columns.
pub open spec fn row(
    name: Seq<char>,
    target: TargetView,
    current: Option<Seq<char>>,
) -> Seq<char> {
    marker(name, current) + " "@ + padded(name, 14) + " "@ + padded(target.kind(), 7) + " "@
        + target.label() + "\n"@
}

/// The lines for `targets`, in order.
pub open spec fn rows(
    targets: Seq<(Seq<char>, TargetView)>,
    current: Option<Seq<char>>,
) -> Seq<char>
    decreases targets.len(),
{
    if targets.len() == 0 {
        Seq::empty()
    } else {
        rows(targets.drop_last(), current) + row(targets.last().0, targets.last().1, current)
    }
}

/// The whole listing, which ends with its last visible character.
pub open spec fn listing(config: ConfigView) -> Seq<char> {
    trimmed_end(rows(config.targets, config.current))
}

/// Appends the line for one target to `out`.
fn append_row(out: &mut String, name: &String, target: &Target, current: &Option<String>)
    ensures
        final(out)@ == old(out)@ + row(name@, target@, current.deep_view()),
{
    let active = match current {
        Some(c) => *c == *name,
        None => false,
    };
    let (kind, label) = target.summary();
    if active {
        out.append("*");
    } else {
        out.append(" ");
    }
    out.append(" ");
    append_padded(out, name.as_str(), 14);
    out.append(" ");
    append_padded(out, kind, 7);
    out.append(" ");
    out.append(label);
    out.append("\n");
    assert(out@ =~= old(out)@ + row(name@, target@, current.deep_view()));
}

/// Lists `entries`; the one called `current` is marked with `*`.
pub fn render_entries(entries: &Vec<(&String, &Target)>, current: &Option<String>) -> (res: String)
    ensures
        res@ == trimmed_end(rows(entries_view(entries@), current.deep_view())),
{
    let mut out = String::new();
    let ghost all = entries_view(entries@);
    for i in 0..entries.len()
        invariant
            all == entries_view(entries@),
            out@ == rows(all.take(i as int), current.deep_view()),
    {
        let name: &String = entries[i].0;
        let target: &Target = entries[i].1;
        append_row(&mut out, name, target, current);
        proof {
            assert(all.take(i + 1).drop_last() =~= all.take(i as int));
            assert(all.take(i + 1).last() == (name@, target@));
        }
    }
    assert(all.take(entries@.len() as int) =~= all);
    trim_end(out.as_str()).to_owned()
}

/// Renders the target list; the active target is marked with `*`.
pub fn render_list(cfg: &Config) -> (res: String)
    ensures
        res@ == listing(cfg@),
        cfg@.names_distinct(),
{
    let entries = cfg.entries();
    render_entries(&entries, &cfg.current)
}

/// A line begins with `*` on the active target, and on no other.
pub proof fn mark_tells_the_active_target(
    name: Seq<char>,
    target: TargetView,
    current: Option<Seq<char>>,
)
    ensures
        row(name, target, current).len() > 0,
        row(name, target, current)[0] == '*' <==> current == Some(name),
        row(name, target, current)[0] == ' ' <==> current != Some(name),
{
    reveal_strlit("*");
    reveal_strlit(" ");
}

/// At most one target is marked.
pub proof fn at_most_one_is_marked(config: ConfigView, i: int, j: int)
    requires
        config.names_distinct(),
        0 <= i < config.targets.len(),
        0 <= j < config.targets.len(),
        row(config.targets[i].0, config.targets[i].1, config.current)[0] == '*',
        row(config.targets[j].0, config.targets[j].1, config.current)[0] == '*',
    ensures
        i == j,
{
    mark_tells_the_active_target(config.targets[i].0, config.targets[i].1, config.current);
    mark_tells_the_active_target(config.targets[j].0, config.targets[j].1, config.current);
    if i < j {
        assert(config.targets[i].0 != config.targets[j].0);
    } else if j < i {
        assert(config.targets[j].0 != config.targets[i].0);
    }
}

/// The lines of two groups of targets follow each other as the groups do.
pub proof fn rows_follow_the_order(
    first: Seq<(Seq<char>, TargetView)>,
    second: Seq<(Seq<char>, TargetView)>,
    current: Option<Seq<char>>,
)
    ensures
        rows(first + second, current) == rows(first, current) + rows(second, current),
    decreases second.len(),
{
    if second.len() == 0 {
        assert(first + second =~= first);
        assert(rows(first, current) + rows(second, current) =~= rows(first, current));
    } else {
        rows_follow_the_order(first, second.drop_last(), current);
        assert((first + second).drop_last() =~= first + second.drop_last());
        assert((first + second).last() == second.last());
        assert(rows(first + second, current) =~= rows(first, current) + rows(second, current));
    }
}

/// No line is blank: it holds at least the target's type.
proof fn lemma_row_not_blank(name: Seq<char>, target: TargetView, current: Option<Seq<char>>)
    ensures
        !is_blank(row(name, target, current)),
{
    reveal_strlit("hyperv");
    reveal_strlit("ssh");
    reveal_strlit("wsl");
    let before = marker(name, current) + " "@ + padded(name, 14) + " "@;
    let line = row(name, target, current);
    assert(target.kind().len() > 0 && target.kind().len() <= 7);
    assert(line[before.len() as int] == target.kind()[0]);
    assert(!is_white_space(line[before.len() as int]));
}

/// Every target is listed on a full line of its own but the last, whose line ends with its last
/// visible character.
pub proof fn only_the_last_line_is_trimmed(config: ConfigView)
    requires
        config.targets.len() > 0,
    ensures
        ({
            let last = config.targets.last();
            listing(config) == rows(config.targets.drop_last(), config.current) + trimmed_end(
                row(last.0, last.1, config.current),
            )
        }),
        listing(config).len() > 0,
        !is_white_space(listing(config).last()),
{
    let last = config.targets.last();
    let before = rows(config.targets.drop_last(), config.current);
    let line = row(last.0, last.1, config.current);
    lemma_row_not_blank(last.0, last.1, config.current);
    trimmed_end_of_concatenation(before, line);
    assert(listing(config).last() == trimmed_end(line).last());
}

/// How many newlines `s` holds.
pub open spec fn newlines(s: Seq<char>) -> nat
    decreases s.len(),
{
    if s.len() == 0 {
        0
    } else {
        newlines(s.drop_last()) + (if s.last() == '\n' {
            1nat
        } else {
            0nat
        })
    }
}

/// Newlines add up.
proof fn lemma_newlines_add(a: Seq<char>, b: Seq<char>)
    ensures
        newlines(a + b) == newlines(a) + newlines(b),
    decreases b.len(),
{
    if b.len() == 0 {
        assert(a + b =~= a);
    } else {
        assert((a + b).drop_last() =~= a + b.drop_last());
        lemma_newlines_add(a, b.drop_last());
    }
}

/// Text without a newline counts none.
proof fn lemma_no_newlines(s: Seq<char>)
    requires
        !s.contains('\n'),
    ensures
        newlines(s) == 0,
    decreases s.len(),
{
    if s.len() > 0 {
        assert(s[s.len() - 1] == s.last());
        assert forall|i: int| 0 <= i < s.drop_last().len() implies s.drop_last()[i] != '\n' by {
            assert(s[i] == s.drop_last()[i]);
        }
        lemma_no_newlines(s.drop_last());
    }
}

/// A line without its newline holds none if name and label hold none.
proof fn lemma_row_is_one_line(name: Seq<char>, target: TargetView, current: Option<Seq<char>>)
    requires
        !name.contains('\n'),
        !target.label().contains('\n'),
    ensures
        row(name, target, current).last() == '\n',
        newlines(row(name, target, current)) == 1,
        newlines(trimmed_end(row(name, target, current))) == 0,
{
    reveal_strlit("*");
    reveal_strlit(" ");
    reveal_strlit("\n");
    reveal_strlit("hyperv");
    reveal_strlit("ssh");
    reveal_strlit("wsl");
    let line = row(name, target, current);
    let visible = line.drop_last();
    let kind = target.kind();
    let label = target.label();
    assert(line.last() == '\n');
    let mark = marker(name, current) + " "@;
    let column1 = padded(name, 14);
    let column2 = padded(kind, 7);
    assert(visible =~= mark + column1 + " "@ + column2 + " "@ + label);
    assert forall|i: int| 0 <= i < visible.len() implies visible[i] != '\n' by {
        let a = mark.len() as int;
        let b = a + column1.len();
        let c = b + 1 + column2.len();
        if i < a {
            assert(visible[i] == mark[i]);
        } else if i < b {
            assert(visible[i] == column1[i - a]);
            if i - a < name.len() {
                assert(column1[i - a] == name[i - a]);
            }
        } else if i == b {
        } else if i < c {
            assert(visible[i] == column2[i - b - 1]);
            if i - b - 1 < kind.len() {
                assert(column2[i - b - 1] == kind[i - b - 1]);
            }
        } else if i > c {
            assert(visible[i] == label[i - c - 1]);
        }
    }
    lemma_no_newlines(visible);
    lemma_trimmed_is_prefix(visible);
    let shown = trimmed_end(visible);
    assert(trimmed_end(line) == shown);
    assert forall|i: int| 0 <= i < shown.len() implies shown[i] != '\n' by {
        assert(shown[i] == visible[i]);
    }
    lemma_no_newlines(shown);
}

/// Trimming keeps a beginning of the text.
proof fn lemma_trimmed_is_prefix(s: Seq<char>)
    ensures
        trimmed_end(s).len() <= s.len(),
        forall|i: int| 0 <= i < trimmed_end(s).len() ==> #[trigger] trimmed_end(s)[i] == s[i],
    decreases s.len(),
{
    if s.len() > 0 && is_white_space(s.last()) {
        lemma_trimmed_is_prefix(s.drop_last());
    }
}

/// Lines of targets whose names and labels hold no newline: one newline each.
proof fn lemma_rows_newlines(targets: Seq<(Seq<char>, TargetView)>, current: Option<Seq<char>>)
    requires
        forall|i: int|
            0 <= i < targets.len() ==> !(#[trigger] targets[i]).0.contains('\n')
                && !targets[i].1.label().contains('\n'),
    ensures
        newlines(rows(targets, current)) == targets.len(),
    decreases targets.len(),
{
    if targets.len() > 0 {
        let shorter = targets.drop_last();
        let last = targets.last();
        assert(last == targets[targets.len() - 1]);
        assert forall|i: int| 0 <= i < shorter.len() implies !(
        #[trigger] shorter[i]).0.contains('\n') && !shorter[i].1.label().contains('\n') by {
            assert(shorter[i] == targets[i]);
        }
        lemma_rows_newlines(shorter, current);
        lemma_row_is_one_line(last.0, last.1, current);
        lemma_newlines_add(rows(shorter, current), row(last.0, last.1, current));
    }
}

/// The listing has one line per target, where no name and no label breaks a line itself.
pub proof fn one_line_per_target(config: ConfigView)
    requires
        config.targets.len() > 0,
        forall|i: int|
            0 <= i < config.targets.len() ==> !(#[trigger] config.targets[i]).0.contains('\n')
                && !config.targets[i].1.label().contains('\n'),
    ensures
        newlines(listing(config)) == config.targets.len() - 1,
{
    let shorter = config.targets.drop_last();
    let last = config.targets.last();
    assert(last == config.targets[config.targets.len() - 1]);
    assert forall|i: int| 0 <= i < shorter.len() implies !(
    #[trigger] shorter[i]).0.contains('\n') && !shorter[i].1.label().contains('\n') by {
        assert(shorter[i] == config.targets[i]);
    }
    lemma_rows_newlines(shorter, config.current);
    lemma_row_is_one_line(last.0, last.1, config.current);
    only_the_last_line_is_trimmed(config);
    lemma_newlines_add(
        rows(shorter, config.current),
        trimmed_end(row(last.0, last.1, config.current)),
    );
}

/// Types and labels stand in columns of their own as long as names keep to theirs.
pub proof fn columns_are_aligned(name: Seq<char>, target: TargetView, current: Option<Seq<char>>)
    requires
        name.len() <= 14,
    ensures
        ({
            let line = row(name, target, current);
            &&& line.subrange(2, 2int + name.len()) == name
            &&& line.subrange(17, 17int + target.kind().len()) == target.kind()
            &&& line.subrange(25, 25int + target.label().len()) == target.label()
        }),
{
    reveal_strlit("*");
    reveal_strlit(" ");
    reveal_strlit("hyperv");
    reveal_strlit("ssh");
    reveal_strlit("wsl");
    let line = row(name, target, current);
    assert(target.kind().len() <= 7);
    assert(line.subrange(2, 2int + name.len()) =~= name);
    assert(line.subrange(17, 17int + target.kind().len()) =~= target.kind());
    assert(line.subrange(25, 25int + target.label().len()) =~= target.label());
}

/// A line in full: the mark, a space, the name filled up to its column, a space, the type filled
/// up to its column, a space, the label and a newline. Nothing else is there.
pub proof fn line_in_full(
    name: Seq<char>,
    target: TargetView,
    current: Option<Seq<char>>,
    i: int,
)
    ensures
        ({
            let line = row(name, target, current);
            let kind_at = 3int + if name.len() < 14 { 14int } else { name.len() as int };
            let label_at = kind_at + 8;
            &&& line.len() == label_at + target.label().len() + 1
            &&& line[0] == if current == Some(name) { '*' } else { ' ' }
            &&& line[1] == ' '
            &&& line.subrange(2, 2int + name.len()) == name
            &&& 2 + name.len() <= i < kind_at ==> line[i] == ' '
            &&& line.subrange(kind_at, kind_at + target.kind().len()) == target.kind()
            &&& kind_at + target.kind().len() <= i < label_at ==> line[i] == ' '
            &&& line.subrange(label_at, label_at + target.label().len()) == target.label()
            &&& line.last() == '\n'
        }),
{
    reveal_strlit("*");
    reveal_strlit(" ");
    reveal_strlit("\n");
    reveal_strlit("hyperv");
    reveal_strlit("ssh");
    reveal_strlit("wsl");
    let line = row(name, target, current);
    let kind_at = 3int + if name.len() < 14 { 14int } else { name.len() as int };
    let label_at = kind_at + 8;
    assert(target.kind().len() <= 7);
    assert(line.subrange(2, 2int + name.len()) =~= name);
    assert(line.subrange(kind_at, kind_at + target.kind().len()) =~= target.kind());
    assert(line.subrange(label_at, label_at + target.label().len()) =~= target.label());
}

/// No target takes no line, and one target takes its own.
pub proof fn one_target_takes_its_line(
    name: Seq<char>,
    target: TargetView,
    current: Option<Seq<char>>,
)
    ensures
        rows(Seq::empty(), current).len() == 0,
        rows(seq![(name, target)], current) == row(name, target, current),
{
    let one = seq![(name, target)];
    let none = Seq::<(Seq<char>, TargetView)>::empty();
    assert(one.drop_last() =~= none);
    assert(rows(none, current) =~= Seq::empty());
    assert(rows(one, current) =~= row(name, target, current));
}

/// Without targets the listing is empty.
pub proof fn nothing_is_listed_without_targets(current: Option<Seq<char>>)
    ensures
        listing(ConfigView { current, targets: Seq::empty() }).len() == 0,
{
}

} // verus!
