//! What holds of the state machine in every well-formed state.

use crate::action::NEW_SESSION;
use crate::app::ListType;
use crate::event::{Key, OutcomeView};
use crate::model::{goto_position, visible, without_name, AppView, ModeView};
use crate::number::{decimal_text, lemma_decimal_text_reads_back};
use crate::selection::{
    lemma_next_cycles, lemma_next_index, lemma_previous_index, lemma_previous_inverts_next,
    next_index_times,
};
use crate::session::{KdlFileView, SessionView};
use vstd::prelude::*;

verus! {

/// How many items the list has that the navigation keys move in.
pub open spec fn focused_len(m: AppView) -> nat {
    if m.action.code != NEW_SESSION {
        m.visible_sessions().len()
    } else {
        match m.focused_list {
            ListType::Layout => m.layouts.len(),
            ListType::Config => m.configs.len(),
            ListType::Session => 0,
        }
    }
}

/// The state after `steps` steps forward in the focused list.
pub open spec fn next_item_times(m: AppView, steps: nat) -> AppView
    decreases steps,
{
    if steps == 0 {
        m
    } else {
        next_item_times(m, (steps - 1) as nat).next_item()
    }
}

/// Stepping forward and then backward, or backward and then forward, leaves
/// a well-formed state as it was.
pub proof fn lemma_previous_item_inverts_next_item(m: AppView)
    requires
        m.wf(),
    ensures
        m.next_item().previous_item() == m,
        m.previous_item().next_item() == m,
{
    let sessions = m.visible_sessions().len() as int;
    let layouts = m.layouts.len() as int;
    let configs = m.configs.len() as int;
    if sessions > 0 {
        lemma_previous_inverts_next(m.selected_session, sessions);
    }
    if layouts > 0 {
        lemma_previous_inverts_next(m.selected_layout, layouts);
    }
    if configs > 0 {
        lemma_previous_inverts_next(m.selected_config, configs);
    }
}

/// Steps forward move the cursor of the focused list alone, as the steps of
/// a cursor do.
proof fn lemma_next_item_times(m: AppView, steps: nat)
    requires
        m.wf(),
    ensures
        next_item_times(m, steps) == if m.action.code != NEW_SESSION {
            AppView {
                selected_session: next_index_times(
                    m.selected_session,
                    m.visible_sessions().len() as int,
                    steps,
                ),
                ..m
            }
        } else {
            match m.focused_list {
                ListType::Layout => AppView {
                    selected_layout: next_index_times(
                        m.selected_layout,
                        m.layouts.len() as int,
                        steps,
                    ),
                    ..m
                },
                ListType::Config => AppView {
                    selected_config: next_index_times(
                        m.selected_config,
                        m.configs.len() as int,
                        steps,
                    ),
                    ..m
                },
                ListType::Session => m,
            }
        },
    decreases steps,
{
    if steps > 0 {
        lemma_next_item_times(m, (steps - 1) as nat);
    }
}

/// As many steps forward as the focused list has items bring a well-formed
/// state back to where it was.
pub proof fn lemma_next_item_cycles(m: AppView)
    requires
        m.wf(),
    ensures
        next_item_times(m, focused_len(m)) == m,
{
    let len = focused_len(m);
    lemma_next_item_times(m, len);
    if len > 0 {
        let cursor = if m.action.code != NEW_SESSION {
            m.selected_session
        } else if m.focused_list == ListType::Layout {
            m.selected_layout
        } else {
            m.selected_config
        };
        lemma_next_cycles(cursor, len as int);
    }
}

/// While the action is about sessions, Left and Right change nothing and ask
/// for nothing.
pub proof fn lemma_side_keys_idle_on_sessions(m: AppView, key: Key)
    requires
        m.wf(),
        m.action.code != NEW_SESSION,
        key == Key::Left || key == Key::Right,
    ensures
        m.input_mode is Normal ==> m.handle_key(key) == m,
        m.input_mode is GoToIndex ==> m.handle_key(key) == m,
        m.key_request(key) is Continue,
{
}

/// No session that `without_name` keeps has the name, and it keeps no more
/// sessions than there were.
pub proof fn lemma_without_name(sessions: Seq<SessionView>, name: Seq<char>)
    ensures
        forall|i: int|
            0 <= i < without_name(sessions, name).len() ==> (#[trigger] without_name(
                sessions,
                name,
            )[i]).name != name,
        without_name(sessions, name).len() <= sessions.len(),
    decreases sessions.len(),
{
    if sessions.len() > 0 {
        lemma_without_name(sessions.drop_last(), name);
    }
}

/// Every visible session is one of the sessions.
pub proof fn lemma_visible_members(code: u8, sessions: Seq<SessionView>)
    ensures
        forall|i: int|
            0 <= i < visible(code, sessions).len() ==> sessions.contains(
                #[trigger] visible(code, sessions)[i],
            ),
        visible(code, sessions).len() <= sessions.len(),
    decreases sessions.len(),
{
    if sessions.len() > 0 {
        let rest = sessions.drop_last();
        lemma_visible_members(code, rest);
        assert forall|i: int| 0 <= i < visible(code, sessions).len() implies sessions.contains(
            #[trigger] visible(code, sessions)[i],
        ) by {
            if i < visible(code, rest).len() {
                let at = choose|k: int| 0 <= k < rest.len() && rest[k] == visible(code, rest)[i];
                assert(sessions[at] == visible(code, sessions)[i]);
            } else {
                assert(sessions[sessions.len() - 1] == visible(code, sessions)[i]);
            }
        }
    }
}

/// After a kill or a delete that succeeded, no session has the name of the
/// one that was acted on, no action shows such a session, each cursor is in
/// bounds, and the run goes on as before.
pub proof fn lemma_finished_session_is_gone(m: AppView, outcome: OutcomeView, code: u8)
    requires
        m.acts_on_session(),
        outcome matches OutcomeView::Finished { success: true, .. },
    ensures
        m.finish_action(outcome).sessions == without_name(
            m.sessions,
            m.selected_visible()->0.name,
        ),
        forall|i: int|
            0 <= i < m.finish_action(outcome).sessions.len() ==> (#[trigger] m.finish_action(
                outcome,
            ).sessions[i]).name != m.selected_visible()->0.name,
        forall|i: int|
            0 <= i < visible(code, m.finish_action(outcome).sessions).len() ==> (#[trigger] visible(
                code,
                m.finish_action(outcome).sessions,
            )[i]).name != m.selected_visible()->0.name,
        m.finish_action(outcome).cursors_in_bounds(),
        m.finish_action(outcome).exit == m.exit,
{
    let name = m.selected_visible()->0.name;
    let after = m.finish_action(outcome);
    lemma_without_name(m.sessions, name);
    lemma_visible_members(code, after.sessions);
    assert forall|i: int| 0 <= i < visible(code, after.sessions).len() implies (#[trigger] visible(
        code,
        after.sessions,
    )[i]).name != name by {
        let shown = visible(code, after.sessions)[i];
        assert(after.sessions.contains(shown));
        let at = choose|k: int| 0 <= k < after.sessions.len() && after.sessions[k] == shown;
        assert(after.sessions[at].name != name);
    }
}

/// The initial state is well formed.
pub proof fn lemma_initial_wf()
    ensures
        AppView::initial().wf(),
{
}

/// Every key leaves a well-formed state well formed.
pub proof fn lemma_handle_key_keeps_wf(m: AppView, key: Key)
    requires
        m.wf(),
    ensures
        m.handle_key(key).wf(),
{
    let sessions = m.visible_sessions().len() as int;
    let layouts = m.layouts.len() as int;
    let configs = m.configs.len() as int;
    if sessions > 0 {
        lemma_next_index(m.selected_session, sessions);
        lemma_previous_index(m.selected_session, sessions);
    }
    if layouts > 0 {
        lemma_next_index(m.selected_layout, layouts);
        lemma_previous_index(m.selected_layout, layouts);
    }
    if configs > 0 {
        lemma_next_index(m.selected_config, configs);
        lemma_previous_index(m.selected_config, configs);
    }
}

/// Whatever the multiplexer answers leaves a well-formed state well formed:
/// the outcome of a kill or a delete, a listing of the sessions, and lists of
/// the files.
pub proof fn lemma_answers_keep_wf(
    m: AppView,
    outcome: OutcomeView,
    listing: Option<Seq<char>>,
    layouts: Seq<KdlFileView>,
    configs: Seq<KdlFileView>,
)
    requires
        m.wf(),
    ensures
        m.finish_action(outcome).wf(),
        m.fetch_sessions(listing).wf(),
        m.fetch_files(layouts, configs).wf(),
        m.refresh(listing, Some((layouts, configs))).wf(),
        m.refresh(listing, None).wf(),
{
}

/// No key changes a list: the sessions and the files change only by what the
/// multiplexer answers. And no key brings a run back that is over.
pub proof fn lemma_keys_keep_lists(m: AppView, key: Key)
    ensures
        m.handle_key(key).sessions == m.sessions,
        m.handle_key(key).layouts == m.layouts,
        m.handle_key(key).configs == m.configs,
        m.exit ==> m.handle_key(key).exit,
{
}

/// A kill or a delete never ends the run, however it ended itself, and it
/// leaves the action, the files and the focus alone.
pub proof fn lemma_finish_action_goes_on(m: AppView, outcome: OutcomeView)
    ensures
        m.finish_action(outcome).exit == m.exit,
        m.finish_action(outcome).action == m.action,
        m.finish_action(outcome).layouts == m.layouts,
        m.finish_action(outcome).configs == m.configs,
        m.finish_action(outcome).focused_list == m.focused_list,
        !(outcome matches OutcomeView::Finished { success: true, .. })
            ==> m.finish_action(outcome).sessions == m.sessions,
{
}

/// In a well-formed state a list has a selection exactly when it is not
/// empty: the arguments that start a new session hold the layout where there
/// is a layout, and the configuration where there is a configuration.
pub proof fn lemma_launch_args(m: AppView)
    requires
        m.wf(),
    ensures
        m.launch_args() == (if m.layouts.len() > 0 {
            seq!["-l"@, m.layouts[m.selected_layout].path]
        } else {
            Seq::empty()
        }) + (if m.configs.len() > 0 {
            seq!["-c"@, m.configs[m.selected_config].path]
        } else {
            Seq::empty()
        }),
{
}

/// The number in front of a row is the position to type in to get there:
/// where the go-to buffer holds the one-based position of the `index`-th
/// visible session, Enter moves the session cursor to `index`.
pub proof fn lemma_go_to_row(m: AppView, index: int)
    requires
        m.action.code != NEW_SESSION,
        0 <= index < m.visible_sessions().len(),
        index < usize::MAX,
        m.input_mode is GoToIndex,
        m.goto_buffer == decimal_text((index + 1) as nat),
    ensures
        goto_position(m.goto_buffer) == Some(index + 1),
        m.handle_key(Key::Enter).selected_session == index,
        m.handle_key(Key::Enter).input_mode == ModeView::Normal,
{
    lemma_decimal_text_reads_back((index + 1) as nat);
}

} // verus!
