//! Deciding what a connect should do about live sessions, and asking when the
//! decision is not the client's to make alone.

use vstd::prelude::*;

use crate::screen::TermSize;
use crate::text::{align_left, align_right, number, parse_index, quote, same, starts_with, trim};
use crate::text::{
    a_written_number_reads_back, begins, decimal, decimal_is_positional, holding_is_being_around,
    is_white, left_aligned, occurs, only_digits_are_a_number, parsed, quoted, right_aligned,
    trimmed, trimming_takes_the_whitespace_and_nothing_else,
};

verus! {

/// The shortest prefix `--attach` accepts, in characters.
pub const MIN_ATTACH_PREFIX: usize = 4;

/// What the picker writes each time before it waits for an answer.
pub const PROMPT: &'static str = "> ";

/// What a client asks a host for.
#[derive(Clone, PartialEq, Eq, Debug)]
pub enum Choice {
    New,
    Attach { id: String },
}

/// What a client asks a host for.
pub enum ChoiceView {
    New,
    Attach(Seq<char>),
}

impl View for Choice {
    type V = ChoiceView;

    open spec fn view(&self) -> ChoiceView {
        match self {
            Choice::New => ChoiceView::New,
            Choice::Attach { id } => ChoiceView::Attach(id@),
        }
    }
}

/// A live session, as a host offers it.
#[derive(Clone, PartialEq, Eq, Debug)]
pub struct SessionSummary {
    pub session_id: String,
    pub created_unix: u64,
    pub shell: String,
    pub size: TermSize,
    pub detachable: bool,
    pub attach_id: u64,
}

/// A live session, as a host offers it.
pub struct SummaryView {
    pub session_id: Seq<char>,
    pub created_unix: u64,
    pub shell: Seq<char>,
    pub size: TermSize,
    pub detachable: bool,
    pub attach_id: u64,
}

impl View for SessionSummary {
    type V = SummaryView;

    open spec fn view(&self) -> SummaryView {
        SummaryView {
            session_id: self.session_id@,
            created_unix: self.created_unix,
            shell: self.shell@,
            size: self.size,
            detachable: self.detachable,
            attach_id: self.attach_id,
        }
    }
}

/// What a connect resolves to.
#[derive(Debug, PartialEq, Eq)]
pub enum Decision {
    /// The choice is made; send it and move on.
    Chosen(Choice),
    /// More than one session is live and nothing else settled it.
    Ask,
    /// Nothing to send. The reason is for the user.
    Refused(String),
}

/// What a connect resolves to.
pub enum DecisionView {
    Chosen(ChoiceView),
    Ask,
    Refused(Seq<char>),
}

impl View for Decision {
    type V = DecisionView;

    open spec fn view(&self) -> DecisionView {
        match self {
            Decision::Chosen(c) => DecisionView::Chosen(c@),
            Decision::Ask => DecisionView::Ask,
            Decision::Refused(why) => DecisionView::Refused(why@),
        }
    }
}

/// The sessions a host offers, as they are seen.
pub open spec fn views(offered: Seq<SessionSummary>) -> Seq<SummaryView> {
    offered.map_values(|s: SessionSummary| s@)
}

/// The ids of sessions.
pub open spec fn ids(offered: Seq<SummaryView>) -> Seq<Seq<char>> {
    offered.map_values(|s: SummaryView| s.session_id)
}

/// Texts with a comma and a space between them.
pub open spec fn joined(parts: Seq<Seq<char>>) -> Seq<char>
    decreases parts.len(),
{
    if parts.len() == 0 {
        Seq::empty()
    } else if parts.len() == 1 {
        parts[0]
    } else {
        joined(parts.drop_last()) + ", "@ + parts.last()
    }
}

/// The sessions whose id begins with `prefix`.
pub open spec fn matching(offered: Seq<SummaryView>, prefix: Seq<char>) -> Seq<SummaryView> {
    offered.filter(|s: SummaryView| begins(s.session_id, prefix))
}

/// Why a session cannot be attached to.
pub open spec fn not_detachable_text(id: Seq<char>) -> Seq<char> {
    "session "@ + id
        + " is not detachable: it tunnels its data through the ssh connection that created it, so it cannot outlive it and cannot be reattached. Start a new session."@
}

/// What is live.
pub open spec fn live_text(offered: Seq<SummaryView>) -> Seq<char> {
    if offered.len() == 0 {
        "There are no live sessions on this host."@
    } else {
        "Live sessions: "@ + joined(ids(offered)) + "."@
    }
}

/// What `--attach` resolves to.
pub open spec fn attach_decision(offered: Seq<SummaryView>, prefix: Seq<char>) -> DecisionView {
    let found = matching(offered, prefix);
    if prefix.len() < MIN_ATTACH_PREFIX {
        DecisionView::Refused(
            "--attach needs at least four characters of a session id, got "@ + quoted(prefix),
        )
    } else if found.len() == 0 {
        DecisionView::Refused(
            "no live session starts with "@ + quoted(prefix) + ". "@ + live_text(offered),
        )
    } else if found.len() > 1 {
        DecisionView::Refused(
            quoted(prefix) + " matches more than one live session: "@ + joined(ids(found))
                + ". Give more characters."@,
        )
    } else if found[0].detachable {
        DecisionView::Chosen(ChoiceView::Attach(found[0].session_id))
    } else {
        DecisionView::Refused(not_detachable_text(found[0].session_id))
    }
}

/// What a connect resolves to: `--new` first, then `--attach`, then the cases
/// without flags. A session that dies with its ssh cannot be resumed, which is
/// no reason to refuse the connect.
pub open spec fn decision(
    offered: Seq<SummaryView>,
    attach: Option<Seq<char>>,
    new: bool,
) -> DecisionView {
    if new {
        DecisionView::Chosen(ChoiceView::New)
    } else if attach is Some {
        attach_decision(offered, attach->0)
    } else if offered.len() > 1 {
        DecisionView::Ask
    } else if offered.len() == 1 && offered[0].detachable {
        DecisionView::Chosen(ChoiceView::Attach(offered[0].session_id))
    } else {
        DecisionView::Chosen(ChoiceView::New)
    }
}

/// Why a specific session cannot be attached to.
pub fn not_detachable_reason(session_id: &str) -> (s: String)
    ensures
        s@ == not_detachable_text(session_id@),
{
    let mut s = "session ".to_owned();
    s.append(session_id);
    s.append(
        " is not detachable: it tunnels its data through the ssh connection that created it, so it cannot outlive it and cannot be reattached. Start a new session.",
    );
    s
}

/// The ids of the sessions at `at`, with a comma and a space between them.
fn join_ids(offered: &[SessionSummary], at: &Vec<usize>) -> (s: String)
    requires
        forall|k: int| 0 <= k < at@.len() ==> #[trigger] at@[k] < offered@.len(),
    ensures
        s@ == joined(
            ids(at@.map_values(|i: usize| views(offered@)[i as int])),
        ),
{
    let mut s = String::new();
    let mut k: usize = 0;
    let ghost all = ids(at@.map_values(|i: usize| views(offered@)[i as int]));
    while k < at.len()
        invariant
            k <= at@.len(),
            all.len() == at@.len(),
            all == ids(at@.map_values(|i: usize| views(offered@)[i as int])),
            forall|k: int| 0 <= k < at@.len() ==> #[trigger] at@[k] < offered@.len(),
            s@ == joined(all.take(k as int)),
        decreases at@.len() - k,
    {
        let i: usize = at[k];
        proof {
            assert(all[k as int] == offered@[i as int].session_id@);
            assert(all.take(k + 1).drop_last() =~= all.take(k as int));
            assert(all.take(k + 1).last() == all[k as int]);
            if k == 0 {
                assert(s@ + all[0] =~= all[0]);
            }
        }
        if k > 0 {
            s.append(", ");
        }
        s.append(offered[i].session_id.as_str());
        k += 1;
    }
    proof {
        assert(all.take(at@.len() as int) =~= all);
    }
    s
}

/// What is live, for a refusal to point at.
pub fn describe_live(offered: &[SessionSummary]) -> (s: String)
    ensures
        s@ == live_text(views(offered@)),
{
    if offered.len() == 0 {
        return "There are no live sessions on this host.".to_owned();
    }
    let mut all: Vec<usize> = Vec::new();
    let mut i: usize = 0;
    while i < offered.len()
        invariant
            i <= offered@.len(),
            all@.len() == i,
            forall|k: int| 0 <= k < i ==> #[trigger] all@[k] == k,
        decreases offered@.len() - i,
    {
        all.push(i);
        i += 1;
    }
    proof {
        assert(all@.map_values(|i: usize| views(offered@)[i as int]) =~= views(offered@));
    }
    let list = join_ids(offered, &all);
    let mut s = "Live sessions: ".to_owned();
    s.append(list.as_str());
    s.append(".");
    s
}

/// Where the sessions stand whose id begins with `prefix`.
fn matching_at(offered: &[SessionSummary], prefix: &str) -> (at: Vec<usize>)
    ensures
        forall|k: int| 0 <= k < at@.len() ==> #[trigger] at@[k] < offered@.len(),
        at@.map_values(|i: usize| views(offered@)[i as int]) == matching(
            views(offered@),
            prefix@,
        ),
{
    let mut at: Vec<usize> = Vec::new();
    let mut i: usize = 0;
    let ghost all = views(offered@);
    let ghost pick = |s: SummaryView| begins(s.session_id, prefix@);
    proof {
        reveal(Seq::filter);
        assert(all.take(0).filter(pick) =~= Seq::empty());
        assert(at@.map_values(|i: usize| all[i as int]) =~= Seq::empty());
    }
    while i < offered.len()
        invariant
            i <= offered@.len(),
            all == views(offered@),
            pick == (|s: SummaryView| begins(s.session_id, prefix@)),
            forall|k: int| 0 <= k < at@.len() ==> #[trigger] at@[k] < offered@.len(),
            at@.map_values(|i: usize| all[i as int]) == all.take(i as int).filter(pick),
        decreases offered@.len() - i,
    {
        let ghost before = at@;
        let hit = starts_with(offered[i].session_id.as_str(), prefix);
        if hit {
            at.push(i);
        }
        proof {
            reveal(Seq::filter);
            assert(all.take(i + 1).drop_last() =~= all.take(i as int));
            assert(all.take(i + 1).last() == offered@[i as int]@);
            if hit {
                assert(at@.map_values(|i: usize| all[i as int]) =~= before.map_values(
                    |i: usize| all[i as int],
                ).push(all[i as int]));
            }
        }
        i += 1;
    }
    proof {
        assert(all.take(all.len() as int) =~= all);
    }
    at
}

/// `--attach <prefix>`: exactly one candidate, or a refusal that says why.
pub fn decide_attach(offered: &[SessionSummary], prefix: &str) -> (d: Decision)
    ensures
        d@ == attach_decision(views(offered@), prefix@),
{
    // Characters, not bytes: "at least four characters" means what it says.
    if prefix.unicode_len() < MIN_ATTACH_PREFIX {
        let mut s = "--attach needs at least four characters of a session id, got ".to_owned();
        s.append(quote(prefix).as_str());
        return Decision::Refused(s);
    }
    let at = matching_at(offered, prefix);
    let ghost found = matching(views(offered@), prefix@);
    assert(found.len() == at@.len());
    if at.len() == 0 {
        let mut s = "no live session starts with ".to_owned();
        s.append(quote(prefix).as_str());
        s.append(". ");
        s.append(describe_live(offered).as_str());
        return Decision::Refused(s);
    }
    if at.len() > 1 {
        let mut s = quote(prefix);
        s.append(" matches more than one live session: ");
        s.append(join_ids(offered, &at).as_str());
        s.append(". Give more characters.");
        return Decision::Refused(s);
    }
    let one = &offered[at[0]];
    assert(found[0] == one@);
    if one.detachable {
        Decision::Chosen(Choice::Attach { id: one.session_id.clone() })
    } else {
        Decision::Refused(not_detachable_reason(one.session_id.as_str()))
    }
}

/// What a connect resolves to: `--new` first, then `--attach`, then the cases
/// without flags.
pub fn decide(offered: &[SessionSummary], attach: Option<&str>, new: bool) -> (d: Decision)
    ensures
        d@ == decision(
            views(offered@),
            match attach {
                Some(prefix) => Some(prefix@),
                None => None,
            },
            new,
        ),
{
    if new {
        return Decision::Chosen(Choice::New);
    }
    if let Some(prefix) = attach {
        return decide_attach(offered, prefix);
    }
    if offered.len() == 0 {
        return Decision::Chosen(Choice::New);
    }
    if offered.len() > 1 {
        return Decision::Ask;
    }
    let one = &offered[0];
    assert(views(offered@)[0] == one@);
    if one.detachable {
        Decision::Chosen(Choice::Attach { id: one.session_id.clone() })
    } else {
        Decision::Chosen(Choice::New)
    }
}

/// One line of the picker's list.
pub open spec fn listed(s: SummaryView, n: nat) -> Seq<char> {
    right_aligned(decimal(n), 2) + ") "@ + s.session_id + "  "@ + right_aligned(
        decimal(s.size.cols as nat),
        3,
    ) + "x"@ + left_aligned(decimal(s.size.rows as nat), 3) + "  attach "@ + decimal(
        s.attach_id as nat,
    ) + "  "@ + s.shell + "  "@ + (if s.detachable {
        "detachable"@
    } else {
        "NOT detachable (dies with its ssh)"@
    }) + "\n"@
}

/// The picker's list, numbered from one.
pub open spec fn list_of(offered: Seq<SummaryView>) -> Seq<char>
    decreases offered.len(),
{
    if offered.len() == 0 {
        "sessions live on this host:\n"@
    } else {
        list_of(offered.drop_last()) + listed(offered.last(), offered.len())
    }
}

/// What the picker shows before it asks.
pub open spec fn menu_of(offered: Seq<SummaryView>) -> Seq<char> {
    list_of(offered) + "[1-"@ + decimal(offered.len()) + "] resume, n new session, q quit\n"@
}

/// One line of the picker's list.
fn list_one(s: &SessionSummary, n: usize) -> (line: String)
    ensures
        line@ == listed(s@, n as nat),
{
    let mut line = align_right(number(n as u64).as_str(), 2);
    line.append(") ");
    line.append(s.session_id.as_str());
    line.append("  ");
    line.append(align_right(number(s.size.cols as u64).as_str(), 3).as_str());
    line.append("x");
    line.append(align_left(number(s.size.rows as u64).as_str(), 3).as_str());
    line.append("  attach ");
    line.append(number(s.attach_id).as_str());
    line.append("  ");
    line.append(s.shell.as_str());
    line.append("  ");
    if s.detachable {
        line.append("detachable");
    } else {
        line.append("NOT detachable (dies with its ssh)");
    }
    line.append("\n");
    line
}

/// What the picker shows before it asks: a numbered list, and what may be
/// answered.
pub fn menu(offered: &[SessionSummary]) -> (s: String)
    ensures
        s@ == menu_of(views(offered@)),
{
    let mut s = "sessions live on this host:\n".to_owned();
    let mut i: usize = 0;
    let ghost all = views(offered@);
    while i < offered.len()
        invariant
            i <= offered@.len(),
            all == views(offered@),
            s@ == list_of(all.take(i as int)),
        decreases offered@.len() - i,
    {
        proof {
            assert(all.take(i + 1).drop_last() =~= all.take(i as int));
            assert(all.take(i + 1).last() == offered@[i as int]@);
        }
        s.append(list_one(&offered[i], i + 1).as_str());
        i += 1;
    }
    proof {
        assert(all.take(all.len() as int) =~= all);
    }
    s.append("[1-");
    s.append(number(offered.len() as u64).as_str());
    s.append("] resume, n new session, q quit\n");
    s
}

/// What the picker does with an answer.
#[derive(Debug, PartialEq, Eq)]
pub enum Picked {
    /// Leave without choosing anything.
    Quit,
    Chose(Choice),
    /// Say this, and ask again.
    Again(String),
}

/// What the picker does with an answer.
pub enum PickedView {
    Quit,
    Chose(ChoiceView),
    Again(Seq<char>),
}

impl View for Picked {
    type V = PickedView;

    open spec fn view(&self) -> PickedView {
        match self {
            Picked::Quit => PickedView::Quit,
            Picked::Chose(c) => PickedView::Chose(c@),
            Picked::Again(say) => PickedView::Again(say@),
        }
    }
}

/// What an answer comes to, with nothing around it.
pub open spec fn answered(offered: Seq<SummaryView>, answer: Seq<char>) -> PickedView {
    if answer == "q"@ {
        PickedView::Quit
    } else if answer == "n"@ {
        PickedView::Chose(ChoiceView::New)
    } else {
        match parsed(answer) {
            Some(n) => if 1 <= n <= offered.len() {
                let one = offered[n - 1];
                if one.detachable {
                    PickedView::Chose(ChoiceView::Attach(one.session_id))
                } else {
                    PickedView::Again(not_detachable_text(one.session_id) + "\n"@)
                }
            } else {
                PickedView::Again("not understood: "@ + quoted(answer) + ". Try again.\n"@)
            },
            None => PickedView::Again(
                "not understood: "@ + quoted(answer) + ". Try again.\n"@,
            ),
        }
    }
}

/// What a line comes to. No line at all, at the end of input, is a quit: a
/// client whose input is closed must exit rather than hang, and must not
/// choose anything on the user's behalf.
pub open spec fn picked(offered: Seq<SummaryView>, line: Option<Seq<char>>) -> PickedView {
    match line {
        None => PickedView::Quit,
        Some(line) => answered(offered, trimmed(line)),
    }
}

/// One answer to the picker, with nothing around it.
///
/// A session that cannot be attached to is refused here, with the reason that
/// naming it outright is refused with, and the picker asks again.
pub fn answer(offered: &[SessionSummary], text: &str) -> (p: Picked)
    ensures
        p@ == answered(views(offered@), text@),
{
    if same(text, "q") {
        return Picked::Quit;
    }
    if same(text, "n") {
        return Picked::Chose(Choice::New);
    }
    if let Some(n) = parse_index(text) {
        if n >= 1 && n <= offered.len() {
            let one = &offered[n - 1];
            assert(views(offered@)[n - 1] == one@);
            if one.detachable {
                return Picked::Chose(Choice::Attach { id: one.session_id.clone() });
            }
            let mut say = not_detachable_reason(one.session_id.as_str());
            say.append("\n");
            return Picked::Again(say);
        }
    }
    let mut say = "not understood: ".to_owned();
    say.append(quote(text).as_str());
    say.append(". Try again.\n");
    Picked::Again(say)
}

/// One line for the picker, or `None` at the end of input.
pub fn pick(offered: &[SessionSummary], line: Option<&str>) -> (p: Picked)
    ensures
        p@ == picked(
            views(offered@),
            match line {
                Some(l) => Some(l@),
                None => None,
            },
        ),
{
    match line {
        None => Picked::Quit,
        Some(l) => answer(offered, trim(l).as_str()),
    }
}

/// `--new` starts a new session, whatever is live and whatever else was said.
pub proof fn new_wins_over_everything(offered: Seq<SummaryView>, attach: Option<Seq<char>>)
    ensures
        decision(offered, attach, true) == DecisionView::Chosen(ChoiceView::New),
{
}

/// What is chosen is a new session or one that was offered and can be attached
/// to, however it was chosen.
pub proof fn only_an_offered_session_is_attached_to(
    offered: Seq<SummaryView>,
    attach: Option<Seq<char>>,
    new: bool,
    line: Option<Seq<char>>,
)
    ensures
        decision(offered, attach, new) matches DecisionView::Chosen(ChoiceView::Attach(id)) ==>
            exists|i: int|
            0 <= i < offered.len() && (#[trigger] offered[i]).detachable && offered[i].session_id
                == id,
        picked(offered, line) matches PickedView::Chose(ChoiceView::Attach(id)) ==> exists|i: int|
            0 <= i < offered.len() && (#[trigger] offered[i]).detachable && offered[i].session_id
                == id,
{
    if !new && attach is Some {
        let pick = |s: SummaryView| begins(s.session_id, attach->0);
        let found = offered.filter(pick);
        if found.len() > 0 {
            filtered_is_from(offered, pick, 0);
        }
    }
}

/// What a filter keeps was there.
proof fn filtered_is_from(s: Seq<SummaryView>, pick: spec_fn(SummaryView) -> bool, k: int)
    requires
        0 <= k < s.filter(pick).len(),
    ensures
        exists|i: int| 0 <= i < s.len() && #[trigger] s[i] == s.filter(pick)[k],
    decreases s.len(),
{
    reveal(Seq::filter);
    if s.len() > 0 {
        let head = s.drop_last();
        if k < head.filter(pick).len() {
            filtered_is_from(head, pick, k);
            let i = choose|i: int| 0 <= i < head.len() && #[trigger] head[i] == head.filter(pick)[k];
            assert(s[i] == s.filter(pick)[k]);
        } else {
            assert(s[s.len() - 1] == s.filter(pick)[k]);
        }
    }
}

/// The picker and `--attach` refuse a session that cannot be attached to in
/// the same words.
pub proof fn one_reason_for_one_fact(
    offered: Seq<SummaryView>,
    prefix: Seq<char>,
    line: Seq<char>,
    n: usize,
)
    requires
        1 <= n <= offered.len(),
        !offered[n - 1].detachable,
        parsed(trimmed(line)) == Some(n),
        trimmed(line) != "q"@,
        trimmed(line) != "n"@,
        prefix.len() >= MIN_ATTACH_PREFIX,
        matching(offered, prefix) == seq![offered[n - 1]],
    ensures
        attach_decision(offered, prefix) matches DecisionView::Refused(why) && picked(
            offered,
            Some(line),
        ) == PickedView::Again(why + "\n"@),
{
}

/// Without a flag the user is asked exactly when more than one session is live,
/// however many more. A new session is started unasked only if none is live or
/// the only one cannot be attached to, and the only one is resumed unasked
/// exactly if it can be. Nothing is refused.
pub proof fn the_user_is_asked_exactly_when_there_is_a_choice(offered: Seq<SessionSummary>)
    ensures
        ({
            let d = decision(views(offered), None, false);
            &&& d is Ask <==> offered.len() >= 2
            &&& d == DecisionView::Chosen(ChoiceView::New) <==> offered.len() == 0 || (
            offered.len() == 1 && !offered[0].detachable)
            &&& d is Chosen && d->Chosen_0 is Attach <==> offered.len() == 1
                && offered[0].detachable
            &&& offered.len() == 1 && offered[0].detachable ==> d == DecisionView::Chosen(
                ChoiceView::Attach(offered[0].session_id@),
            )
            &&& !(d is Refused)
        }),
{
}

/// One more live session never turns a question into anything else, and a
/// question never depends on what the sessions are.
pub proof fn more_sessions_are_still_asked_about(
    offered: Seq<SessionSummary>,
    more: Seq<SessionSummary>,
)
    requires
        decision(views(offered), None, false) is Ask,
    ensures
        decision(views(offered + more), None, false) is Ask,
        decision(views(more + offered), None, false) is Ask,
{
}

/// A filter that nothing passes keeps nothing.
proof fn filtered_none(s: Seq<SummaryView>, pick: spec_fn(SummaryView) -> bool)
    requires
        forall|i: int| 0 <= i < s.len() ==> !pick(#[trigger] s[i]),
    ensures
        s.filter(pick) == Seq::<SummaryView>::empty(),
    decreases s.len(),
{
    reveal(Seq::filter);
    if s.len() > 0 {
        let head = s.drop_last();
        assert forall|i: int| 0 <= i < head.len() implies !pick(#[trigger] head[i]) by {
            assert(head[i] == s[i]);
        }
        filtered_none(head, pick);
        assert(!pick(s[s.len() - 1]));
    }
}

/// A filter that one thing passes keeps that.
proof fn filtered_one(s: Seq<SummaryView>, pick: spec_fn(SummaryView) -> bool, i: int)
    requires
        0 <= i < s.len(),
        pick(s[i]),
        forall|j: int| 0 <= j < s.len() && j != i ==> !pick(#[trigger] s[j]),
    ensures
        s.filter(pick) == seq![s[i]],
    decreases s.len(),
{
    reveal(Seq::filter);
    let head = s.drop_last();
    if i == s.len() - 1 {
        assert forall|j: int| 0 <= j < head.len() implies !pick(#[trigger] head[j]) by {
            assert(head[j] == s[j]);
        }
        filtered_none(head, pick);
        assert(s.filter(pick) =~= seq![s[i]]);
    } else {
        assert forall|j: int| 0 <= j < head.len() && j != i implies !pick(#[trigger] head[j]) by {
            assert(head[j] == s[j]);
        }
        assert(head[i] == s[i]);
        filtered_one(head, pick, i);
        assert(!pick(s[s.len() - 1]));
    }
}

/// A filter keeps whatever passes it.
proof fn filtered_some(s: Seq<SummaryView>, pick: spec_fn(SummaryView) -> bool, i: int, j: int)
    requires
        0 <= i <= j < s.len(),
        pick(s[i]),
        pick(s[j]),
    ensures
        s.filter(pick).len() >= 1,
        i < j ==> s.filter(pick).len() >= 2,
    decreases s.len(),
{
    reveal(Seq::filter);
    let head = s.drop_last();
    let n = s.len() - 1;
    if j < n {
        assert(head[i] == s[i] && head[j] == s[j]);
        filtered_some(head, pick, i, j);
    } else if i < n {
        assert(head[i] == s[i]);
        filtered_some(head, pick, i, i);
    }
}

/// Whether the id of session number `k` begins with `prefix`.
pub open spec fn fits(offered: Seq<SessionSummary>, prefix: Seq<char>, k: int) -> bool {
    let id = offered[k].session_id@;
    prefix.len() <= id.len() && id.take(prefix.len() as int) == prefix
}

/// `--attach` takes the one session whose id begins with what was given, by its
/// whole id, and refuses otherwise: under four characters, if no id begins so,
/// or if more than one does, or if the one that does cannot be attached to. It
/// never asks and never starts a new session.
pub proof fn a_prefix_picks_the_one_it_fits(
    offered: Seq<SessionSummary>,
    prefix: Seq<char>,
    i: int,
    j: int,
)
    requires
        0 <= i < offered.len(),
        0 <= j < offered.len(),
    ensures
        ({
            let d = decision(views(offered), Some(prefix), false);
            &&& prefix.len() < 4 ==> d == DecisionView::Refused(
                "--attach needs at least four characters of a session id, got "@ + quoted(prefix),
            )
            &&& prefix.len() >= 4 && fits(offered, prefix, i) && (forall|k: int|
                0 <= k < offered.len() && k != i ==> !(#[trigger] fits(offered, prefix, k))) ==> {
                &&& offered[i].detachable ==> d == DecisionView::Chosen(
                    ChoiceView::Attach(offered[i].session_id@),
                )
                &&& !offered[i].detachable ==> d == DecisionView::Refused(
                    "session "@ + offered[i].session_id@
                        + " is not detachable: it tunnels its data through the ssh connection that created it, so it cannot outlive it and cannot be reattached. Start a new session."@,
                )
            }
            &&& i != j && fits(offered, prefix, i) && fits(offered, prefix, j) ==> d is Refused
            &&& (forall|k: int| 0 <= k < offered.len() ==> !(#[trigger] fits(offered, prefix, k)))
                ==> d is Refused
            &&& d is Refused || d is Chosen && d->Chosen_0 is Attach
        }),
{
    let all = views(offered);
    let pick = |s: SummaryView| begins(s.session_id, prefix);
    assert forall|k: int| 0 <= k < offered.len() implies pick(#[trigger] all[k]) == fits(
        offered,
        prefix,
        k,
    ) by {
        assert(all[k].session_id == offered[k].session_id@);
        let id = offered[k].session_id@;
        if prefix.len() <= id.len() {
            assert(id.subrange(0, prefix.len() as int) =~= id.take(prefix.len() as int));
        }
    }
    assert(matching(all, prefix) == all.filter(pick));
    assert(pick(all[i]) == fits(offered, prefix, i));
    assert(pick(all[j]) == fits(offered, prefix, j));
    if i != j && fits(offered, prefix, i) && fits(offered, prefix, j) {
        if i < j {
            filtered_some(all, pick, i, j);
        } else {
            filtered_some(all, pick, j, i);
        }
    }
    if fits(offered, prefix, i) && (forall|k: int|
        0 <= k < offered.len() && k != i ==> !(#[trigger] fits(offered, prefix, k))) {
        assert forall|k: int| 0 <= k < all.len() && k != i implies !pick(#[trigger] all[k]) by {
            assert(!fits(offered, prefix, k));
        }
        filtered_one(all, pick, i);
    }
    if forall|k: int| 0 <= k < offered.len() ==> !(#[trigger] fits(offered, prefix, k)) {
        assert forall|k: int| 0 <= k < all.len() implies !pick(#[trigger] all[k]) by {
            assert(!fits(offered, prefix, k));
        }
        filtered_none(all, pick);
    }
}

/// With nothing live there is nothing to attach to, and that is said.
pub proof fn nothing_live_is_said(prefix: Seq<char>)
    requires
        prefix.len() >= 4,
    ensures
        decision(views(Seq::<SessionSummary>::empty()), Some(prefix), false)
            == DecisionView::Refused(
            "no live session starts with "@ + quoted(prefix) + ". "@
                + "There are no live sessions on this host."@,
        ),
{
    reveal(Seq::filter);
    assert(views(Seq::<SessionSummary>::empty()) =~= Seq::<SummaryView>::empty());
}

/// The picker takes a session by its place in the list, counted from one, and
/// no other; `n` is a new session, and `q` or the end of input is none. What is
/// none of these, or names no place in the list, is asked again, as is a session
/// that cannot be attached to.
pub proof fn the_picker_takes_what_was_named(
    offered: Seq<SessionSummary>,
    n: usize,
    before: Seq<char>,
    after: Seq<char>,
)
    requires
        forall|i: int| 0 <= i < before.len() ==> is_white(#[trigger] before[i]),
        forall|i: int| 0 <= i < after.len() ==> is_white(#[trigger] after[i]),
    ensures
        ({
            let p = picked(views(offered), Some(before + decimal(n as nat) + after));
            &&& 1 <= n <= offered.len() && offered[n - 1].detachable ==> p == PickedView::Chose(
                ChoiceView::Attach(offered[n - 1].session_id@),
            )
            &&& 1 <= n <= offered.len() && !offered[n - 1].detachable ==> p == PickedView::Again(
                "session "@ + offered[n - 1].session_id@
                    + " is not detachable: it tunnels its data through the ssh connection that created it, so it cannot outlive it and cannot be reattached. Start a new session."@
                    + "\n"@,
            )
            &&& n == 0 || n > offered.len() ==> p == PickedView::Again(
                "not understood: "@ + quoted(decimal(n as nat)) + ". Try again.\n"@,
            )
        }),
        picked(views(offered), Some(before + seq!['n'] + after)) == PickedView::Chose(
            ChoiceView::New,
        ),
        picked(views(offered), Some(before + seq!['q'] + after)) is Quit,
        picked(views(offered), None) is Quit,
{
    let typed = decimal(n as nat);
    decimal_is_positional(n as nat);
    decimal_is_all_digits(n as nat);
    a_written_number_reads_back(n);
    trimming_takes_the_whitespace_and_nothing_else(before, typed, after);
    trimming_takes_the_whitespace_and_nothing_else(before, seq!['n'], after);
    trimming_takes_the_whitespace_and_nothing_else(before, seq!['q'], after);
    reveal_strlit("q");
    reveal_strlit("n");
    assert("q"@ =~= seq!['q']);
    assert("n"@ =~= seq!['n']);
    assert(seq!['q'][0] != seq!['n'][0]);
    assert('0' <= typed[0] <= '9');
    assert(typed[0] != "q"@[0] && typed[0] != "n"@[0]);
}

/// A word that is neither a number nor one of the two letters is asked again.
pub proof fn an_unknown_word_is_asked_again(offered: Seq<SessionSummary>, word: Seq<char>)
    requires
        word.len() > 0,
        !is_white(word[0]),
        !is_white(word.last()),
        word != seq!['q'],
        word != seq!['n'],
        word[0] != '+' && !('0' <= word[0] <= '9'),
    ensures
        picked(views(offered), Some(word)) == PickedView::Again(
            "not understood: "@ + quoted(word) + ". Try again.\n"@,
        ),
{
    let none = Seq::<char>::empty();
    trimming_takes_the_whitespace_and_nothing_else(none, word, none);
    assert(none + word + none =~= word);
    only_digits_are_a_number(word);
    reveal_strlit("q");
    reveal_strlit("n");
    assert("q"@ =~= seq!['q']);
    assert("n"@ =~= seq!['n']);
}

/// The digits of a number are digits.
proof fn decimal_is_all_digits(n: nat)
    ensures
        decimal(n).len() >= 1,
        forall|i: int| 0 <= i < decimal(n).len() ==> '0' <= #[trigger] decimal(n)[i] <= '9',
        forall|i: int| 0 <= i < decimal(n).len() ==> !is_white(#[trigger] decimal(n)[i]),
    decreases n,
{
    decimal_is_positional(n);
    if n >= 10 {
        decimal_is_all_digits(n / 10);
        assert(decimal(n).drop_last() == decimal(n / 10));
        assert forall|i: int| 0 <= i < decimal(n).len() implies '0' <= #[trigger] decimal(n)[i]
            <= '9' by {
            if i < decimal(n).len() - 1 {
                assert(decimal(n)[i] == decimal(n).drop_last()[i]);
            }
        }
    }
}

/// The list the picker shows says every session that is live, each on a line of
/// its own under its number, counted from one: its id, its size, its generation,
/// its shell and whether it can be attached to.
pub proof fn the_picker_lists_every_session(offered: Seq<SessionSummary>, i: int)
    requires
        0 <= i < offered.len(),
    ensures
        ({
            let s = offered[i];
            let line = right_aligned(decimal((i + 1) as nat), 2) + ") "@ + s.session_id@ + "  "@
                + right_aligned(decimal(s.size.cols as nat), 3) + "x"@ + left_aligned(
                decimal(s.size.rows as nat),
                3,
            ) + "  attach "@ + decimal(s.attach_id as nat) + "  "@ + s.shell@ + "  "@ + (
            if s.detachable {
                "detachable"@
            } else {
                "NOT detachable (dies with its ssh)"@
            }) + "\n"@;
            occurs(menu_of(views(offered)), line)
        }),
{
    let s = offered[i];
    let line = listed(s@, (i + 1) as nat);
    listed_in(views(offered), i);
    let (a, b) = choose|a: Seq<char>, b: Seq<char>|
        list_of(views(offered)) == #[trigger] (a + line + b);
    let rest = "[1-"@ + decimal(offered.len()) + "] resume, n new session, q quit\n"@;
    assert(menu_of(views(offered)) =~= a + line + (b + rest));
    holding_is_being_around(menu_of(views(offered)), line);
}

/// A list holds the line of each session in it.
proof fn listed_in(offered: Seq<SummaryView>, i: int)
    requires
        0 <= i < offered.len(),
    ensures
        exists|a: Seq<char>, b: Seq<char>|
            list_of(offered) == #[trigger] (a + listed(offered[i], (i + 1) as nat) + b),
    decreases offered.len(),
{
    let head = offered.drop_last();
    let line = listed(offered[i], (i + 1) as nat);
    if i == offered.len() - 1 {
        let none = Seq::<char>::empty();
        assert(list_of(offered) =~= list_of(head) + line + none);
    } else {
        listed_in(head, i);
        assert(head[i] == offered[i]);
        let (a, b) = choose|a: Seq<char>, b: Seq<char>| list_of(head) == #[trigger] (a + line + b);
        let more = b + listed(offered.last(), offered.len());
        assert(list_of(offered) =~= a + line + more);
    }
}

/// Texts in a row are each of them, in order, with a comma and a space before
/// every one but the first.
pub proof fn a_row_of_texts_is_all_of_them(parts: Seq<Seq<char>>, last: Seq<char>, i: int)
    ensures
        joined(seq![last]) == last,
        parts.len() > 0 ==> joined(parts.push(last)) == joined(parts) + ", "@ + last,
        0 <= i < parts.len() ==> occurs(joined(parts), parts[i]),
    decreases parts.len(),
{
    assert(parts.push(last).drop_last() =~= parts);
    if 0 <= i < parts.len() {
        let none = Seq::<char>::empty();
        let all = joined(parts);
        if parts.len() == 1 {
            assert(all =~= none + parts[i] + none);
        } else if i == parts.len() - 1 {
            assert(all =~= (joined(parts.drop_last()) + ", "@) + parts[i] + none);
        } else {
            let head = parts.drop_last();
            a_row_of_texts_is_all_of_them(head, last, i);
            assert(head[i] == parts[i]);
            holding_is_being_around(joined(head), parts[i]);
            let (a, b) = choose|a: Seq<char>, b: Seq<char>|
                joined(head) == #[trigger] (a + parts[i] + b);
            assert(all =~= a + parts[i] + (b + ", "@ + parts.last()));
        }
        holding_is_being_around(all, parts[i]);
    }
}

/// What is live is said by every id, and that nothing is where nothing is.
pub proof fn every_live_session_is_named(offered: Seq<SessionSummary>, i: int)
    requires
        0 <= i < offered.len(),
    ensures
        occurs(live_text(views(offered)), offered[i].session_id@),
        live_text(views(Seq::<SessionSummary>::empty()))
            == "There are no live sessions on this host."@,
        begins(live_text(views(offered)), "Live sessions: "@),
{
    let all = ids(views(offered));
    a_row_of_texts_is_all_of_them(all, Seq::empty(), i);
    assert(all[i] == offered[i].session_id@);
    holding_is_being_around(joined(all), all[i]);
    let (a, b) = choose|a: Seq<char>, b: Seq<char>| joined(all) == #[trigger] (a + all[i] + b);
    let said = live_text(views(offered));
    assert(said =~= ("Live sessions: "@ + a) + all[i] + (b + "."@));
    holding_is_being_around(said, all[i]);
    assert(said.subrange(0, "Live sessions: "@.len() as int) =~= "Live sessions: "@);
    assert(views(Seq::<SessionSummary>::empty()) =~= Seq::<SummaryView>::empty());
}

/// A refusal says what was asked for and what there is: every live session where
/// no id begins so, and every id that does where there are several.
pub proof fn a_refusal_names_what_there_is(
    offered: Seq<SessionSummary>,
    prefix: Seq<char>,
    i: int,
    j: int,
)
    requires
        prefix.len() >= 4,
        0 <= i < j < offered.len(),
    ensures
        ({
            let d = decision(views(offered), Some(prefix), false);
            &&& (forall|k: int| 0 <= k < offered.len() ==> !(#[trigger] fits(offered, prefix, k)))
                ==> d == DecisionView::Refused(
                "no live session starts with "@ + quoted(prefix) + ". "@ + live_text(
                    views(offered),
                ),
            )
            &&& fits(offered, prefix, i) && fits(offered, prefix, j) ==> (
            d matches DecisionView::Refused(why) && {
                &&& begins(why, quoted(prefix) + " matches more than one live session: "@)
                &&& occurs(why, offered[i].session_id@)
                &&& occurs(why, offered[j].session_id@)
            })
        }),
{
    let all = views(offered);
    let pick = |s: SummaryView| begins(s.session_id, prefix);
    assert forall|k: int| 0 <= k < offered.len() implies pick(#[trigger] all[k]) == fits(
        offered,
        prefix,
        k,
    ) by {
        assert(all[k].session_id == offered[k].session_id@);
        let id = offered[k].session_id@;
        if prefix.len() <= id.len() {
            assert(id.subrange(0, prefix.len() as int) =~= id.take(prefix.len() as int));
        }
    }
    assert(matching(all, prefix) == all.filter(pick));
    if forall|k: int| 0 <= k < offered.len() ==> !(#[trigger] fits(offered, prefix, k)) {
        assert forall|k: int| 0 <= k < all.len() implies !pick(#[trigger] all[k]) by {
            assert(!fits(offered, prefix, k));
        }
        filtered_none(all, pick);
    }
    if fits(offered, prefix, i) && fits(offered, prefix, j) {
        assert(pick(all[i]) && pick(all[j]));
        filtered_some(all, pick, i, j);
        let found = matching(all, prefix);
        let said = quoted(prefix) + " matches more than one live session: "@;
        let why = said + joined(ids(found)) + ". Give more characters."@;
        assert(why.subrange(0, said.len() as int) =~= said);
        named_in(all, pick, i, said);
        named_in(all, pick, j, said);
    }
}

/// What passes a filter is named among what it keeps.
proof fn named_in(s: Seq<SummaryView>, pick: spec_fn(SummaryView) -> bool, i: int, said: Seq<char>)
    requires
        0 <= i < s.len(),
        pick(s[i]),
    ensures
        occurs(said + joined(ids(s.filter(pick))) + ". Give more characters."@, s[i].session_id),
{
    filtered_keeps(s, pick, i);
    let kept = s.filter(pick);
    let k = choose|k: int| 0 <= k < kept.len() && #[trigger] kept[k] == s[i];
    let names = ids(kept);
    assert(names[k] == s[i].session_id);
    a_row_of_texts_is_all_of_them(names, Seq::empty(), k);
    holding_is_being_around(joined(names), names[k]);
    let (a, b) = choose|a: Seq<char>, b: Seq<char>| joined(names) == #[trigger] (a + names[k] + b);
    let why = said + joined(names) + ". Give more characters."@;
    assert(why =~= (said + a) + names[k] + (b + ". Give more characters."@));
    holding_is_being_around(why, names[k]);
}

/// What passes a filter is in what it keeps.
proof fn filtered_keeps(s: Seq<SummaryView>, pick: spec_fn(SummaryView) -> bool, i: int)
    requires
        0 <= i < s.len(),
        pick(s[i]),
    ensures
        exists|k: int| 0 <= k < s.filter(pick).len() && #[trigger] s.filter(pick)[k] == s[i],
    decreases s.len(),
{
    reveal(Seq::filter);
    let head = s.drop_last();
    let kept = s.filter(pick);
    if i == s.len() - 1 {
        assert(kept[kept.len() - 1] == s[i]);
    } else {
        assert(head[i] == s[i]);
        filtered_keeps(head, pick, i);
        let k = choose|k: int|
            0 <= k < head.filter(pick).len() && #[trigger] head.filter(pick)[k] == head[i];
        assert(kept[k] == s[i]);
    }
}

/// The picker's list says what it is first, and last what may be answered, up to
/// the number of the last session.
pub proof fn the_picker_says_what_may_be_answered(offered: Seq<SessionSummary>)
    ensures
        begins(menu_of(views(offered)), "sessions live on this host:\n"@),
        ({
            let last = "[1-"@ + decimal(offered.len()) + "] resume, n new session, q quit\n"@;
            let shown = menu_of(views(offered));
            &&& last.len() <= shown.len()
            &&& shown.skip(shown.len() - last.len()) == last
        }),
{
    let all = views(offered);
    let last = "[1-"@ + decimal(offered.len()) + "] resume, n new session, q quit\n"@;
    let shown = menu_of(all);
    headed(all);
    let head = "sessions live on this host:\n"@;
    assert(shown =~= list_of(all) + last);
    assert(shown.skip(shown.len() - last.len()) =~= last);
    assert(shown.subrange(0, head.len() as int) =~= list_of(all).subrange(0, head.len() as int));
}

/// A list begins with what it is.
proof fn headed(offered: Seq<SummaryView>)
    ensures
        begins(list_of(offered), "sessions live on this host:\n"@),
    decreases offered.len(),
{
    let head = "sessions live on this host:\n"@;
    if offered.len() == 0 {
        assert(head.subrange(0, head.len() as int) =~= head);
    } else {
        headed(offered.drop_last());
        let before = list_of(offered.drop_last());
        assert(list_of(offered).subrange(0, head.len() as int) =~= before.subrange(
            0,
            head.len() as int,
        ));
    }
}

} // verus!
