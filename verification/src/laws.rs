//! What holds of the application whatever happens to it.

use crate::app::{ActionMode, AppView, InputMode};
use crate::brand::Brand;
use crate::event::{ActionView, Event, Key, Mouse};
use crate::gpg::DEFAULT_GPG_KEY;
use crate::project::Project;
use crate::text;
use vstd::prelude::*;

verus! {

impl AppView {
    /// Whether the signing key is some text without white space at its ends.
    pub open spec fn key_is_clean(self) -> bool {
        self.key.len() > 0 && text::is_trimmed(self.key)
    }

    /// Whether nothing is selected or one of the projects is.
    pub open spec fn selection_is_valid(self) -> bool {
        self.list.in_range(self.projects.len() as int)
    }

    /// The state after a number of events, one after the other.
    pub open spec fn after(self, events: Seq<Event>) -> AppView
        decreases events.len(),
    {
        if events.len() == 0 {
            self
        } else {
            self.after(events.drop_last()).step(events.last()).0
        }
    }

    /// The state after `k` calls for the next project.
    pub open spec fn nexts(self, k: nat) -> AppView
        decreases k,
    {
        if k == 0 {
            self
        } else {
            self.nexts((k - 1) as nat).next()
        }
    }

    /// The state after `k` calls for the previous project.
    pub open spec fn previouses(self, k: nat) -> AppView
        decreases k,
    {
        if k == 0 {
            self
        } else {
            self.previouses((k - 1) as nat).previous()
        }
    }

    /// The state after the keys of some text, one after the other.
    pub open spec fn typing(self, typed: Seq<char>) -> AppView
        decreases typed.len(),
    {
        if typed.len() == 0 {
            self
        } else {
            self.typing(typed.drop_last()).step(Event::Press(Key::Char(typed.last()))).0
        }
    }
}

/// Whether an event calls for the next project.
pub open spec fn moves_on(e: Event) -> bool {
    e == Event::Press(Key::Down) || e == Event::Press(Key::Char('j')) || e == Event::Mouse(
        Mouse::ScrollDown,
    )
}

/// Whether an event calls for the previous project.
pub open spec fn moves_back(e: Event) -> bool {
    e == Event::Press(Key::Up) || e == Event::Press(Key::Char('k')) || e == Event::Mouse(
        Mouse::ScrollUp,
    )
}

/// The application begins with a clean signing key and with no selection, and whatever
/// happens, the key stays clean.
pub proof fn key_stays_clean(brand: Brand, s: AppView, e: Event, projects: Seq<Project>)
    ensures
        AppView::initial(brand).key_is_clean(),
        s.key_is_clean() ==> s.step(e).0.key_is_clean(),
        s.key_is_clean() ==> s.received(projects).key_is_clean(),
{
    reveal_strlit("417CAB41FAB91318");
    text::trimming_is_idempotent(s.buffer);
}

/// No event brings the selection out of the list. What a scan comes back with can: a list
/// that is shorter than the selection is far down.
pub proof fn selection_stays_valid(brand: Brand, s: AppView, e: Event, projects: Seq<Project>)
    ensures
        AppView::initial(brand).selection_is_valid(),
        s.selection_is_valid() && s.projects.len() <= usize::MAX
            ==> s.step(e).0.selection_is_valid(),
        s.selection_is_valid() && projects.len() >= s.projects.len() ==> s.received(
            projects,
        ).selection_is_valid(),
{
}

/// Once a scan has come back with projects, one is selected; what was selected stays so.
pub proof fn receiving_selects(s: AppView, projects: Seq<Project>)
    requires
        projects.len() > 0,
    ensures
        s.received(projects).list.selected is Some,
        s.list.selected is Some ==> s.received(projects).list == s.list,
        s.list.selected is None ==> s.received(projects).list.selected == Some(0usize),
{
}

/// Of projects that can be selected, the next one and then the previous one is the same
/// again, and so the other way round.
pub proof fn next_and_previous_undo_each_other(s: AppView)
    requires
        s.selection_is_valid(),
        s.list.selected is Some,
        s.projects.len() <= usize::MAX,
    ensures
        s.next().previous() == s,
        s.previous().next() == s,
{
}

/// `k` calls for the next project lead `k` places on, round and round the list; as many as
/// there are projects lead back to where one was.
pub proof fn next_goes_round(s: AppView, k: nat)
    requires
        s.selection_is_valid(),
        s.list.selected is Some,
        s.projects.len() <= usize::MAX,
    ensures
        s.nexts(k) == (AppView {
            list: s.list.selecting(
                ((s.list.selected->0 + k) % (s.projects.len() as int)) as usize,
            ),
            ..s
        }),
        s.nexts(s.projects.len()) == s,
{
    moved_on(s, k);
    moved_on(s, s.projects.len());
    let n = s.projects.len() as int;
    mod_is(s.list.selected->0 + n, n, 1, s.list.selected->0 as int);
}

/// `k` calls for the previous project lead `k` places back, round and round the list; as
/// many as there are projects lead back to where one was.
pub proof fn previous_goes_round(s: AppView, k: nat)
    requires
        s.selection_is_valid(),
        s.list.selected is Some,
        s.projects.len() <= usize::MAX,
    ensures
        s.previouses(k) == (AppView {
            list: s.list.selecting(
                ((s.list.selected->0 - k) % (s.projects.len() as int)) as usize,
            ),
            ..s
        }),
        s.previouses(s.projects.len()) == s,
{
    moved_back(s, k);
    moved_back(s, s.projects.len());
    let n = s.projects.len() as int;
    mod_is(s.list.selected->0 - n, n, -1, s.list.selected->0 as int);
}

/// While one moves about, Down, `j` and the wheel each call for the next project, and Up,
/// `k` and the wheel the other way each call for the previous one.
pub proof fn moving_events_move(s: AppView, events: Seq<Event>)
    requires
        s.mode == InputMode::Normal,
    ensures
        (forall|i: int| 0 <= i < events.len() ==> moves_on(#[trigger] events[i])) ==> s.after(
            events,
        ) == s.nexts(events.len()),
        (forall|i: int| 0 <= i < events.len() ==> moves_back(#[trigger] events[i])) ==> s.after(
            events,
        ) == s.previouses(events.len()),
    decreases events.len(),
{
    if events.len() > 0 {
        let before = events.drop_last();
        moving_events_move(s, before);
        nexts_keep_mode(s, before.len());
        if forall|i: int| 0 <= i < events.len() ==> moves_on(#[trigger] events[i]) {
            assert(forall|i: int| 0 <= i < before.len() ==> before[i] == events[i]);
            assert(moves_on(events.last()));
        }
        if forall|i: int| 0 <= i < events.len() ==> moves_back(#[trigger] events[i]) {
            assert(forall|i: int| 0 <= i < before.len() ==> before[i] == events[i]);
            assert(moves_back(events.last()));
        }
    }
}

proof fn nexts_keep_mode(s: AppView, k: nat)
    ensures
        s.nexts(k).mode == s.mode,
        s.previouses(k).mode == s.mode,
    decreases k,
{
    if k > 0 {
        nexts_keep_mode(s, (k - 1) as nat);
    }
}

proof fn moved_on(s: AppView, k: nat)
    requires
        s.selection_is_valid(),
        s.list.selected is Some,
        s.projects.len() <= usize::MAX,
    ensures
        s.nexts(k) == (AppView {
            list: s.list.selecting(
                ((s.list.selected->0 + k) % (s.projects.len() as int)) as usize,
            ),
            ..s
        }),
    decreases k,
{
    let n = s.projects.len() as int;
    let i = s.list.selected->0 as int;
    if k == 0 {
        mod_is(i, n, 0, i);
    } else {
        moved_on(s, (k - 1) as nat);
        mod_step(i + k - 1, n);
    }
}

proof fn moved_back(s: AppView, k: nat)
    requires
        s.selection_is_valid(),
        s.list.selected is Some,
        s.projects.len() <= usize::MAX,
    ensures
        s.previouses(k) == (AppView {
            list: s.list.selecting(
                ((s.list.selected->0 - k) % (s.projects.len() as int)) as usize,
            ),
            ..s
        }),
    decreases k,
{
    let n = s.projects.len() as int;
    let i = s.list.selected->0 as int;
    if k == 0 {
        mod_is(i, n, 0, i);
    } else {
        moved_back(s, (k - 1) as nat);
        mod_step(i - k, n);
    }
}

proof fn mod_is(x: int, n: int, q: int, r: int)
    requires
        0 <= r < n,
        x == q * n + r,
    ensures
        x % n == r,
{
    vstd::arithmetic::div_mod::lemma_fundamental_div_mod_converse(x, n, q, r);
}

proof fn mod_step(x: int, n: int)
    requires
        n > 0,
    ensures
        0 <= x % n < n,
        (x + 1) % n == (if x % n == n - 1 {
            0
        } else {
            x % n + 1
        }),
{
    vstd::arithmetic::div_mod::lemma_fundamental_div_mod(x, n);
    vstd::arithmetic::div_mod::lemma_mod_bound(x, n);
    let q = x / n;
    assert(n * q == q * n) by (nonlinear_arith);
    if x % n == n - 1 {
        assert((q + 1) * n == q * n + n) by (nonlinear_arith);
        mod_is(x + 1, n, q + 1, 0);
    } else {
        mod_is(x + 1, n, q, x % n + 1);
    }
}

/// The application ends on `q` or Esc while one moves about, and on nothing else.
pub proof fn only_quit_keys_quit(s: AppView, e: Event)
    ensures
        s.step(e).1 is Quit <==> s.mode == InputMode::Normal && (e == Event::Press(Key::Char('q'))
            || e == Event::Press(Key::Esc)),
{
}

/// Esc leads back from anywhere, and asks for nothing there.
pub proof fn escape_leads_back(s: AppView)
    requires
        s.mode != InputMode::Normal,
    ensures
        s.step(Event::Press(Key::Esc)).0.mode == InputMode::Normal,
        s.step(Event::Press(Key::Esc)).1 is Nothing,
        s.step(Event::Press(Key::Esc)).0.key == s.key,
{
}

/// There is never more than one scan: none is started while one is under way, and one
/// that is started is under way.
pub proof fn at_most_one_scan(s: AppView, e: Event)
    ensures
        s.loading ==> !s.step(e).1.starts_scan(),
        s.step(e).1.starts_scan() ==> s.step(e).0.loading,
        s.loading ==> s.step(e).0.loading,
        s.step(e).0.loading && !s.loading ==> s.step(e).1.starts_scan(),
{
}

/// No event changes the projects: only a scan that comes back does.
pub proof fn events_keep_projects(s: AppView, e: Event)
    ensures
        s.step(e).0.projects == s.projects,
        s.step(e).0.list.offset == s.list.offset,
        s.step(e).0.brand == s.brand,
{
}

/// While one types, what is on the list stays as it is.
pub proof fn typing_keeps_the_list(s: AppView, e: Event)
    requires
        s.mode != InputMode::Normal,
    ensures
        s.step(e).0.list == s.list,
{
}

/// The mouse does nothing but while one moves about.
pub proof fn mouse_rests_elsewhere(s: AppView, m: Mouse)
    requires
        s.mode != InputMode::Normal,
    ensures
        s.step(Event::Mouse(m)) == (s, ActionView::Nothing),
{
}

/// A character that is typed and taken back leaves no trace.
pub proof fn backspace_undoes_a_character(s: AppView, c: char)
    requires
        s.mode == InputMode::CreatingProject || s.mode == InputMode::ConfigGpgKey,
    ensures
        s.step(Event::Press(Key::Char(c))).0.step(Event::Press(Key::Backspace)).0 == s,
{
    assert(s.buffer.push(c).drop_last() =~= s.buffer);
}

/// What is typed is added to the input, character by character, and does nothing else.
pub proof fn typing_fills_the_buffer(s: AppView, typed: Seq<char>)
    requires
        s.mode == InputMode::CreatingProject || s.mode == InputMode::ConfigGpgKey,
    ensures
        s.typing(typed) == (AppView { buffer: s.buffer + typed, ..s }),
    decreases typed.len(),
{
    if typed.len() > 0 {
        typing_fills_the_buffer(s, typed.drop_last());
        assert((s.buffer + typed.drop_last()).push(typed.last()) =~= s.buffer + typed);
    } else {
        assert(s.buffer + typed =~= s.buffer);
    }
}

/// `c`, a name and Enter ask for a project of that name, without white space at its ends,
/// and lead back to where one was; a blank name asks for nothing.
pub proof fn typed_name_is_created(s: AppView, name: Seq<char>)
    requires
        s.mode == InputMode::Normal,
    ensures
        ({
            let open = s.step(Event::Press(Key::Char('c'))).0;
            let done = open.typing(name).step(Event::Press(Key::Enter));
            let clean = text::trimmed(name);
            &&& clean.len() > 0 ==> done.1 == (ActionView::CreateProject {
                name: clean,
                scan: !s.loading,
            })
            &&& clean.len() > 0 ==> done.0 == (AppView { buffer: name, ..s.scanning() })
            &&& clean.len() == 0 ==> done.1 is Nothing
            &&& clean.len() == 0 ==> done.0 == (AppView { buffer: name, ..s })
        }),
{
    let open = s.step(Event::Press(Key::Char('c'))).0;
    typing_fills_the_buffer(open, name);
    assert(open.buffer + name =~= name);
}

/// `g` and Enter set the present key everywhere and do not change it.
pub proof fn present_key_is_offered(s: AppView)
    requires
        s.mode == InputMode::Normal,
        s.key_is_clean(),
    ensures
        ({
            let open = s.step(Event::Press(Key::Char('g'))).0;
            let done = open.step(Event::Press(Key::Enter));
            &&& done.1 == (ActionView::ConfigureGpg { key: s.key, scan: !s.loading })
            &&& done.0.key == s.key
            &&& done.0.mode == InputMode::Normal
        }),
{
    text::trimmed_keeps_trimmed(s.key);
}

/// A key that is set everywhere is the one that projects are held to from then on.
pub proof fn configured_key_is_kept(s: AppView, e: Event)
    ensures
        s.step(e).1 matches ActionView::ConfigureGpg { key, .. } ==> s.step(e).0.key == key,
        !(s.step(e).1 is ConfigureGpg) ==> s.step(e).0.key == s.key,
{
}

/// A question that is answered is gone, whatever the answer.
pub proof fn answers_close_the_question(s: AppView, key: Key)
    requires
        s.mode == InputMode::ConfirmAction,
        key == Key::Char('y') || key == Key::Enter || key == Key::Char('n') || key == Key::Esc,
    ensures
        s.step(Event::Press(key)).0.confirm is None,
        s.step(Event::Press(key)).0.mode == InputMode::Normal,
{
}

/// A question that is declined, or that asks for nothing, changes nothing but that it is
/// gone.
pub proof fn declined_question_does_nothing(s: AppView, key: Key)
    requires
        s.mode == InputMode::ConfirmAction,
        key == Key::Char('n') || key == Key::Esc || ((key == Key::Enter || key == Key::Char('y'))
            && (s.confirm is None || s.confirm->0.action == ActionMode::Nothing)),
    ensures
        s.step(Event::Press(key)) == (s.answered(), ActionView::Nothing),
{
}

/// Keys that are held or released, and events that are not told apart, do nothing.
pub proof fn other_events_do_nothing(s: AppView, key: Key)
    ensures
        s.step(Event::Release(key)) == (s, ActionView::Nothing),
        s.step(Event::Other) == (s, ActionView::Nothing),
        s.step(Event::Mouse(Mouse::Other)) == (s, ActionView::Nothing),
{
}

/// Waiting only turns the wheel, which comes round after 256 turns.
pub proof fn waiting_turns_the_wheel(s: AppView, n: nat)
    ensures
        s.after(Seq::new(n, |i: int| Event::Quiet)) == (AppView {
            tick: ((s.tick + n) % 256) as u8,
            ..s
        }),
        s.after(Seq::new(256, |i: int| Event::Quiet)) == s,
{
    waited(s, n);
    waited(s, 256);
}

proof fn waited(s: AppView, n: nat)
    ensures
        s.after(Seq::new(n, |i: int| Event::Quiet)) == (AppView {
            tick: ((s.tick + n) % 256) as u8,
            ..s
        }),
    decreases n,
{
    if n > 0 {
        waited(s, (n - 1) as nat);
        assert(Seq::new(n, |i: int| Event::Quiet).drop_last() =~= Seq::new(
            (n - 1) as nat,
            |i: int| Event::Quiet,
        ));
    }
}

/// A click selects the project that stands in its row, counted from the first one shown,
/// and a click above the list or below its last project selects nothing new.
pub proof fn click_selects_its_row(s: AppView, row: u16)
    requires
        s.mode == InputMode::Normal,
    ensures
        ({
            let clicked = s.step(Event::Mouse(Mouse::LeftDown(row))).0;
            let index = s.list.offset + row - 2;
            if row >= 2 && index < s.projects.len() {
                clicked == (AppView { list: s.list.selecting(index as usize), ..s })
            } else {
                clicked == s
            }
        }),
{
}

} // verus!
