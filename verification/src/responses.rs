//! What each thing that happens to the application changes, and that it changes nothing else.

use crate::app;
use crate::app::{ActionMode, App, AppView, ConfirmData, InputMode};
use crate::brand::Brand;
use crate::event::{Action, ActionView, Event, Key, Mouse};
use crate::list::ListState;
use crate::project::Project;
use crate::text;
use vstd::prelude::*;

verus! {

/// The application begins with nothing to show, nothing selected and nothing said, with the
/// colours asked for, and with a scan under way.
pub proof fn beginning_is_empty(brand: Brand)
    ensures
        ({
            let s = AppView::initial(brand);
            &&& s.projects.len() == 0
            &&& s.list.offset == 0 && s.list.selected is None
            &&& s.mode == InputMode::Normal
            &&& s.buffer.len() == 0
            &&& s.loading
            &&& s.tick == 0
            &&& s.brand == brand
            &&& s.action_mode == ActionMode::Nothing
            &&& s.confirm is None
            &&& s.key == "417CAB41FAB91318"@
            &&& s.message is None
        }),
{
}

/// What a scan came back with is what there is from then on, whatever there was before, and
/// the scan is over. The selection stays where there is one, else the first project is
/// selected; nothing else changes.
pub proof fn received_projects_replace_all(s: AppView, projects: Seq<Project>)
    ensures
        ({
            let r = s.received(projects);
            &&& r.projects == projects
            &&& !r.loading
            &&& r.list.offset == s.list.offset
            &&& s.list.selected is Some ==> r.list.selected == s.list.selected
            &&& s.list.selected is None && projects.len() > 0 ==> r.list.selected == Some(0usize)
            &&& s.list.selected is None && projects.len() == 0 ==> r.list.selected is None
            &&& r.mode == s.mode
            &&& r.buffer == s.buffer
            &&& r.tick == s.tick
            &&& r.brand == s.brand
            &&& r.action_mode == s.action_mode
            &&& r.confirm == s.confirm
            &&& r.key == s.key
            &&& r.message == s.message
        }),
{
}

/// Of two scans, only the last counts; the same one twice is the same as once.
pub proof fn last_scan_counts(s: AppView, a: Seq<Project>, b: Seq<Project>)
    ensures
        s.received(a).received(b).projects == b,
        s.received(a).received(a) == s.received(a),
{
}

/// To draw the list changes nothing but the state of the list.
pub proof fn drawing_changes_only_the_list(s: AppView, list: ListState)
    ensures
        s.drawn(list).list == list,
        s.drawn(list).drawn(s.list) == s,
        (AppView { list: s.list, ..s.drawn(list) }) == s,
{
}

/// To ask for a scan changes nothing but that one is under way.
pub proof fn scanning_changes_only_that(s: AppView)
    ensures
        s.scanning().loading,
        (AppView { loading: s.loading, ..s.scanning() }) == s,
{
}

/// To ask for a project by its index selects it where there is one and does nothing else; a
/// second request takes the place of the first.
pub proof fn selecting_selects(s: AppView, index: int, other: int)
    requires
        s.projects.len() <= usize::MAX,
    ensures
        0 <= index < s.projects.len() ==> s.selecting(index).list.selected == Some(index as usize),
        0 <= index < s.projects.len() ==> s.selecting(index).list.offset == s.list.offset,
        (AppView { list: s.list, ..s.selecting(index) }) == s,
        !(0 <= index < s.projects.len()) ==> s.selecting(index) == s,
        0 <= index < s.projects.len() ==> s.selecting(other).selecting(index) == s.selecting(index),
{
}

/// Where nothing is selected, the next project is the first, and so is the previous one; a
/// selection beyond the end goes on to the first and back by one; without projects there is
/// neither. Nothing but the selection changes.
pub proof fn steps_from_nowhere(s: AppView)
    requires
        s.projects.len() <= usize::MAX,
    ensures
        s.projects.len() == 0 ==> s.next() == s && s.previous() == s,
        s.projects.len() > 0 && s.list.selected is None ==> s.next().list.selected == Some(0usize)
            && s.previous().list.selected == Some(0usize),
        s.projects.len() > 0 ==> (s.list.selected matches Some(i) ==> (i >= s.projects.len()
            ==> s.next().list.selected == Some(0usize) && s.previous().list.selected == Some(
            (i - 1) as usize,
        ))),
        (AppView { list: s.list, ..s.next() }) == s,
        (AppView { list: s.list, ..s.previous() }) == s,
        s.next().list.offset == s.list.offset,
        s.previous().list.offset == s.list.offset,
{
}

/// While a key is being set everywhere, the message names it; while remotes are tested, it
/// says so. Both ask for a scan, and nothing else changes.
pub proof fn messages_say_what_is_done(s: AppView, key: Seq<char>)
    ensures
        ({
            let m = s.configuring(key).message;
            &&& m is Some
            &&& text::begins_with(m->0, "Configuring GPG key "@)
            &&& text::ends_with(m->0, " on all repos..."@)
            &&& m->0.len() == 20 + key.len() + 16
            &&& m->0.subrange(20, 20 + key.len() as int) == key
        }),
        s.configuring(key).loading,
        (AppView { message: s.message, loading: s.loading, ..s.configuring(key) }) == s,
        s.testing_remotes().message == Some("Testing remote connections..."@),
        s.testing_remotes().loading,
        (AppView { message: s.message, loading: s.loading, ..s.testing_remotes() }) == s,
{
    reveal_strlit("Configuring GPG key ");
    reveal_strlit(" on all repos...");
    let m = s.configuring(key).message->0;
    assert(m == app::configuring_message(key));
    assert(m.take(20) =~= "Configuring GPG key "@);
    assert(m.skip(m.len() - 16) =~= " on all repos..."@);
    assert(m.subrange(20, 20 + key.len() as int) =~= key);
}

/// `r` asks for a scan where none is under way, and changes nothing else.
pub proof fn refresh_asks_for_a_scan(s: AppView)
    requires
        s.mode == InputMode::Normal,
    ensures
        ({
            let (r, action) = s.step(Event::Press(Key::Char('r')));
            &&& r.loading
            &&& (AppView { loading: s.loading, ..r }) == s
            &&& s.loading ==> action is Nothing
            &&& !s.loading ==> action is Scan
        }),
{
}

/// `t` says that remotes are tested and asks for a scan where none is under way.
pub proof fn testing_asks_for_a_scan(s: AppView)
    requires
        s.mode == InputMode::Normal,
    ensures
        ({
            let (r, action) = s.step(Event::Press(Key::Char('t')));
            &&& r.loading
            &&& r.message == Some("Testing remote connections..."@)
            &&& (AppView { loading: s.loading, message: s.message, ..r }) == s
            &&& s.loading ==> action is Nothing
            &&& !s.loading ==> action is Scan
        }),
{
}

/// `c` opens an empty prompt for a name, and `g` one that holds the present key; neither asks
/// for anything or changes anything else.
pub proof fn prompts_open(s: AppView)
    requires
        s.mode == InputMode::Normal,
    ensures
        ({
            let (r, action) = s.step(Event::Press(Key::Char('c')));
            &&& action is Nothing
            &&& r.mode == InputMode::CreatingProject
            &&& r.buffer.len() == 0
            &&& (AppView { mode: s.mode, buffer: s.buffer, ..r }) == s
        }),
        ({
            let (r, action) = s.step(Event::Press(Key::Char('g')));
            &&& action is Nothing
            &&& r.mode == InputMode::ConfigGpgKey
            &&& r.buffer == s.key
            &&& (AppView { mode: s.mode, buffer: s.buffer, ..r }) == s
        }),
{
}

/// The keys that quit leave everything as it is, and keys without a meaning do nothing at
/// all.
pub proof fn other_keys_do_nothing(s: AppView, key: Key)
    requires
        s.mode == InputMode::Normal,
    ensures
        s.step(Event::Press(Key::Esc)) == (s, ActionView::Quit),
        s.step(Event::Press(Key::Char('q'))) == (s, ActionView::Quit),
        key == Key::Enter || key == Key::Backspace || key == Key::Other ==> s.step(
            Event::Press(key),
        ) == (s, ActionView::Nothing),
        key matches Key::Char(c) ==> (c != 'q' && c != 'j' && c != 'k' && c != 'r' && c != 'c' && c
            != 'g' && c != 't' ==> s.step(Event::Press(key)) == (s, ActionView::Nothing)),
{
}

/// To move about asks for nothing.
pub proof fn moving_asks_for_nothing(s: AppView, m: Mouse)
    requires
        s.mode == InputMode::Normal,
    ensures
        s.step(Event::Press(Key::Down)).1 is Nothing,
        s.step(Event::Press(Key::Up)).1 is Nothing,
        s.step(Event::Press(Key::Char('j'))).1 is Nothing,
        s.step(Event::Press(Key::Char('k'))).1 is Nothing,
        s.step(Event::Mouse(m)).1 is Nothing,
        s.step(Event::Quiet).1 is Nothing,
{
}

/// While one types, a character is put behind the others, Backspace takes the last one away,
/// Esc leaves, and any other key but Enter does nothing; none of them asks for anything.
pub proof fn editing_edits(s: AppView, c: char)
    requires
        s.mode == InputMode::CreatingProject || s.mode == InputMode::ConfigGpgKey,
    ensures
        s.step(Event::Press(Key::Char(c))) == (
            AppView { buffer: s.buffer + seq![c], ..s },
            ActionView::Nothing,
        ),
        s.buffer.len() > 0 ==> s.step(Event::Press(Key::Backspace)) == (
            AppView { buffer: s.buffer.take(s.buffer.len() - 1), ..s },
            ActionView::Nothing,
        ),
        s.buffer.len() == 0 ==> s.step(Event::Press(Key::Backspace)) == (s, ActionView::Nothing),
        s.step(Event::Press(Key::Esc)) == (
            AppView { mode: InputMode::Normal, ..s },
            ActionView::Nothing,
        ),
        s.step(Event::Press(Key::Up)) == (s, ActionView::Nothing),
        s.step(Event::Press(Key::Down)) == (s, ActionView::Nothing),
        s.step(Event::Press(Key::Other)) == (s, ActionView::Nothing),
{
    assert(s.buffer + seq![c] =~= s.buffer.push(c));
    if s.buffer.len() > 0 {
        assert(s.buffer.take(s.buffer.len() - 1) =~= s.buffer.drop_last());
    }
}

/// A name is created as it stands between the white space at its ends, and whatever there is
/// of it is left in the buffer. The prompt is closed in any case.
pub proof fn entered_names_are_created(
    s: AppView,
    before: Seq<char>,
    name: Seq<char>,
    after: Seq<char>,
)
    requires
        s.mode == InputMode::CreatingProject,
        s.buffer == before + name + after,
        text::is_blank(before),
        text::is_blank(after),
        text::is_trimmed(name),
    ensures
        ({
            let (r, action) = s.step(Event::Press(Key::Enter));
            &&& r.mode == InputMode::Normal
            &&& name.len() > 0 ==> action == (ActionView::CreateProject { name, scan: !s.loading })
            &&& name.len() > 0 ==> r.loading
            &&& name.len() == 0 ==> action is Nothing
            &&& name.len() == 0 ==> r.loading == s.loading
            &&& (AppView { mode: s.mode, loading: s.loading, ..r }) == s
        }),
{
    text::trimmed_between(before, name, after);
}

/// A key is set everywhere as it stands between the white space at its ends, and is the key
/// from then on; a blank one is not. The prompt is closed in any case.
pub proof fn entered_keys_are_set(
    s: AppView,
    before: Seq<char>,
    key: Seq<char>,
    after: Seq<char>,
)
    requires
        s.mode == InputMode::ConfigGpgKey,
        s.buffer == before + key + after,
        text::is_blank(before),
        text::is_blank(after),
        text::is_trimmed(key),
    ensures
        ({
            let (r, action) = s.step(Event::Press(Key::Enter));
            &&& r.mode == InputMode::Normal
            &&& key.len() > 0 ==> {
                &&& action == (ActionView::ConfigureGpg { key, scan: !s.loading })
                &&& r.key == key
                &&& r.loading
                &&& r.message is Some && text::holds_text(r.message->0, key)
                &&& (AppView {
                    mode: s.mode,
                    loading: s.loading,
                    key: s.key,
                    message: s.message,
                    ..r
                }) == s
            }
            &&& key.len() == 0 ==> action is Nothing && (AppView { mode: s.mode, ..r }) == s
        }),
{
    text::trimmed_between(before, key, after);
    messages_say_what_is_done(s, key);
    let m = app::configuring_message(key);
    assert(m == s.configuring(key).message->0);
    assert(text::matches_at(m, key, 20));
}

/// A question that is confirmed has done what it asks for: the present key is set everywhere,
/// or the remotes are tested. The question is gone and nothing else changes.
pub proof fn confirmed_questions_are_done(s: AppView, key: Key)
    requires
        s.mode == InputMode::ConfirmAction,
        s.confirm is Some,
        key == Key::Char('y') || key == Key::Enter,
    ensures
        ({
            let (r, action) = s.step(Event::Press(key));
            &&& r.mode == InputMode::Normal && r.confirm is None
            &&& s.confirm->0.action == ActionMode::ConfigureGpg ==> {
                &&& action == (ActionView::ConfigureGpg { key: s.key, scan: !s.loading })
                &&& r.loading
                &&& r.message is Some && text::holds_text(r.message->0, s.key)
            }
            &&& s.confirm->0.action == ActionMode::TestRemotes ==> {
                &&& s.loading ==> action is Nothing
                &&& !s.loading ==> action is Scan
                &&& r.loading
                &&& r.message == Some("Testing remote connections..."@)
            }
            &&& s.confirm->0.action == ActionMode::Nothing ==> action is Nothing && r.loading
                == s.loading && r.message == s.message
            &&& (AppView {
                mode: s.mode,
                confirm: s.confirm,
                loading: s.loading,
                message: s.message,
                ..r
            }) == s
        }),
{
    messages_say_what_is_done(s, s.key);
    let m = app::configuring_message(s.key);
    assert(m == s.configuring(s.key).message->0);
    assert(text::matches_at(m, s.key, 20));
}

/// A question that is declined, or confirmed though there is none, is gone, and that is all;
/// any other key leaves it open.
pub proof fn unanswered_questions_stay(s: AppView, key: Key)
    requires
        s.mode == InputMode::ConfirmAction,
    ensures
        key == Key::Char('n') || key == Key::Esc || (s.confirm is None && (key == Key::Char('y')
            || key == Key::Enter)) ==> s.step(Event::Press(key)) == (
            AppView { mode: InputMode::Normal, confirm: None, ..s },
            ActionView::Nothing,
        ),
        key != Key::Char('n') && key != Key::Esc && key != Key::Char('y') && key != Key::Enter
            ==> s.step(Event::Press(key)) == (s, ActionView::Nothing),
{
}

/// Every event can be taken but a click so far down that the project under it has no index.
pub proof fn almost_every_event_can_be_taken(s: AppView, e: Event)
    ensures
        s.mode != InputMode::Normal ==> s.click_fits(e),
        !(e matches Event::Mouse(Mouse::LeftDown(_))) ==> s.click_fits(e),
        s.list.offset + u16::MAX <= usize::MAX + 2 ==> s.click_fits(e),
        s.mode == InputMode::Normal ==> (e matches Event::Mouse(Mouse::LeftDown(row)) ==> (
        s.click_fits(e) <==> s.list.offset + row <= usize::MAX + 2)),
{
}

/// A scan is started exactly where an action says so.
pub proof fn actions_say_whether_to_scan(name: Seq<char>, key: Seq<char>, scan: bool)
    ensures
        ActionView::Scan.starts_scan(),
        !ActionView::Nothing.starts_scan(),
        !ActionView::Quit.starts_scan(),
        (ActionView::CreateProject { name, scan }).starts_scan() == scan,
        (ActionView::ConfigureGpg { key, scan }).starts_scan() == scan,
{
}

/// The view of the application hides nothing of it but how its texts are stored.
pub proof fn views_hide_nothing(app: App, action: Action, question: ConfirmData)
    ensures
        app@.projects == app.projects@,
        app@.list == app.list_state,
        app@.mode == app.input_mode,
        app@.buffer == app.input_buffer@,
        app@.loading == app.is_loading,
        app@.tick == app.tick,
        app@.brand == app.brand,
        app@.action_mode == app.action_mode,
        app@.confirm is Some <==> app.confirm_data is Some,
        app.confirm_data matches Some(c) ==> app@.confirm == Some(c@),
        app@.key == app.global_gpg_key@,
        app@.message is Some <==> app.status_message is Some,
        app.status_message matches Some(m) ==> app@.message == Some(m@),
        question@.action == question.action,
        question@.message == question.message@,
        question@.projects.len() == question.projects@.len(),
        forall|i: int|
            0 <= i < question.projects@.len() ==> #[trigger] question@.projects[i]
                == question.projects@[i]@,
        action is Nothing <==> action@ is Nothing,
        action is Quit <==> action@ is Quit,
        action is Scan <==> action@ is Scan,
        action matches Action::CreateProject { name, scan } ==> action@ == (
        ActionView::CreateProject { name: name@, scan }),
        action matches Action::ConfigureGpg { key, scan } ==> action@ == (
        ActionView::ConfigureGpg { key: key@, scan }),
{
}

} // verus!
