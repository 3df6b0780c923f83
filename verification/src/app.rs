//! The UI state machine. It owns every UI-visible field, consumes one key
//! press or background event at a time, and decides which asynchronous
//! operation, if any, the surrounding event loop should start. It never
//! performs I/O itself.

use vstd::prelude::*;

use crate::fuzzy::{contains_seq, lower_chars, lower_of, rank_by_fuzzy, ranked_view, seq_views};
use crate::event::AppEvent;
use crate::input::{KeyCode, KeyEvent};
use crate::types::{
    next_focus, next_resource_type, prev_focus, prev_resource_type, same_item, ConfirmAction,
    Focus, ResourceItem, ResourceType, SearchResult, TableState, ViewMode,
};

verus! {

/// The asynchronous operation the event loop should start in response to a
/// key press, if any.
#[derive(Clone, Copy, Debug, PartialEq, Eq, Structural)]
pub enum InputAction {
    Idle,
    ContextChanged,
    NamespaceChanged,
    ResourceTypeChanged,
    Describe,
    StreamLogs,
    StopLogs,
    Delete,
    Restart,
    Edit,
    OpenLogsInEditor,
    OpenLogsInLess,
    StartSearch,
    SearchDescribe,
    SearchStreamLogs,
}

/// An error banner stays for this many ticks after the tick that set it.
pub const ERROR_TICKS_LIMIT: u8 = 20;

/// The whole UI-visible state. Background tasks never touch it; they only
/// send events that the surrounding loop feeds to `handle_input` and
/// `apply_event`.
pub struct App {
    pub contexts: Vec<String>,
    pub selected_context: usize,
    pub namespaces: Vec<String>,
    pub selected_namespace: usize,
    pub resource_type: ResourceType,
    pub focus: Focus,
    pub resources: Vec<ResourceItem>,
    pub table_state: TableState,
    pub loading: bool,
    pub detail_text: String,
    pub detail_scroll: u16,
    pub log_lines: Vec<String>,
    pub log_scroll: u16,
    pub log_follow: bool,
    pub view_mode: ViewMode,
    pub filter: String,
    pub filter_active: bool,
    pub error_message: Option<String>,
    pub error_ticks: u8,
    pub dropdown_query: String,
    pub dropdown_filtered: Vec<usize>,
    pub dropdown_selected: usize,
    pub search_query: String,
    pub search_results: Vec<SearchResult>,
    pub search_filtered: Vec<usize>,
    pub search_table_state: TableState,
    pub search_loading: bool,
    pub search_contexts_total: usize,
    pub search_contexts_done: usize,
    pub entered_from_search: bool,
    pub should_quit: bool,
}

/// Whether an item passes the list filter: an empty filter passes
/// everything, otherwise the lowercased filter must occur within the
/// lowercased name.
pub open spec fn passes_filter(item: ResourceItem, filter: Seq<char>) -> bool {
    filter.len() == 0 || contains_seq(lower_of(item.name@), lower_of(filter))
}

/// The indices into `resources` that pass the filter, in ascending order.
pub open spec fn filtered_indices(resources: Seq<ResourceItem>, filter: Seq<char>) -> Seq<int>
    decreases resources.len(),
{
    if resources.len() == 0 {
        Seq::empty()
    } else {
        let head = filtered_indices(resources.drop_last(), filter);
        if passes_filter(resources.last(), filter) {
            head.push(resources.len() - 1)
        } else {
            head
        }
    }
}

/// Every filtered index is in bounds and passes the filter.
pub proof fn lemma_filtered_indices_bounds(resources: Seq<ResourceItem>, filter: Seq<char>)
    ensures
        forall|k: int|
            0 <= k < filtered_indices(resources, filter).len() ==> 0 <= #[trigger] filtered_indices(
                resources,
                filter,
            )[k] < resources.len() && passes_filter(
                resources[filtered_indices(resources, filter)[k]],
                filter,
            ),
    decreases resources.len(),
{
    if resources.len() > 0 {
        lemma_filtered_indices_bounds(resources.drop_last(), filter);
        assert forall|k: int|
            0 <= k < filtered_indices(resources, filter).len() implies 0
            <= #[trigger] filtered_indices(resources, filter)[k] < resources.len()
            && passes_filter(resources[filtered_indices(resources, filter)[k]], filter) by {
            let head = filtered_indices(resources.drop_last(), filter);
            if k < head.len() {
                assert(filtered_indices(resources, filter)[k] == head[k]);
                assert(resources.drop_last()[head[k]] == resources[head[k]]);
            }
        }
    }
}

/// The filtered view of the app's resource list, as index positions.
pub open spec fn spec_filtered(app: App) -> Seq<int> {
    filtered_indices(app.resources@, app.filter@)
}

/// The resource index the table selection points at, if the selection is
/// within the filtered list.
pub open spec fn spec_selected_index(app: App) -> Option<int> {
    match app.table_state.selection {
        Option::None => Option::None,
        Option::Some(i) => if (i as int) < spec_filtered(app).len() {
            Option::Some(spec_filtered(app)[i as int])
        } else {
            Option::None
        },
    }
}

/// The selection one step down from `sel` in a list of `len` entries,
/// wrapping past the end; an absent selection lands on the first entry.
pub open spec fn wrap_next(sel: Option<usize>, len: int) -> int
    recommends
        len > 0,
{
    match sel {
        Option::Some(i) => ((i as int) + 1) % len,
        Option::None => 0,
    }
}

/// The selection one step up from `sel` in a list of `len` entries,
/// wrapping past the start; an absent selection lands on the first entry.
pub open spec fn wrap_prev(sel: Option<usize>, len: int) -> int
    recommends
        len > 0,
{
    match sel {
        Option::Some(i) => if i == 0 {
            len - 1
        } else {
            (i as int) - 1
        },
        Option::None => 0,
    }
}

/// A highlighted position clamped into a list of `len` entries; zero when
/// the list is empty.
pub open spec fn clamped_selection(sel: int, len: int) -> int {
    if len == 0 {
        0
    } else if sel > len - 1 {
        len - 1
    } else {
        sel
    }
}

/// The names of the search results, as character sequences.
pub open spec fn result_name_views(results: Seq<SearchResult>) -> Seq<Seq<char>> {
    results.map_values(|r: SearchResult| r.resource.name@)
}

/// What the focused selector's dropdown lists: context names, namespace
/// names, or the three resource-type display names.
pub open spec fn dropdown_item_views(app: App) -> Seq<Seq<char>> {
    match app.focus {
        Focus::ContextSelector => seq_views(app.contexts@),
        Focus::NamespaceSelector => seq_views(app.namespaces@),
        Focus::ResourceTypeSelector => seq!["Pods"@, "PVCs"@, "StatefulSets"@],
        Focus::ResourceList => Seq::empty(),
    }
}

/// `(i + 1) % len`, computed without overflow.
fn wrapped_increment(i: usize, len: usize) -> (r: usize)
    requires
        len > 0,
    ensures
        r as int == ((i as int) + 1) % (len as int),
{
    let m: usize = i % len;
    let r: usize = if m + 1 == len {
        0
    } else {
        m + 1
    };
    proof {
        let il = i as int;
        let ll = len as int;
        vstd::arithmetic::div_mod::lemma_add_mod_noop(il, 1, ll);
        if ll == 1 {
            vstd::arithmetic::div_mod::lemma_mod_self_0(ll);
            vstd::arithmetic::div_mod::lemma_mod_bound(il + 1, ll);
        } else {
            vstd::arithmetic::div_mod::lemma_small_mod(1nat, ll as nat);
            if m + 1 == len {
                vstd::arithmetic::div_mod::lemma_mod_self_0(ll);
            } else {
                vstd::arithmetic::div_mod::lemma_small_mod((m + 1) as nat, ll as nat);
            }
        }
    }
    r
}

/// Clones a list of names; each clone equals its original.
fn clone_names(names: &Vec<String>) -> (r: Vec<String>)
    ensures
        r@.len() == names@.len(),
        forall|i: int| 0 <= i < r@.len() ==> #[trigger] r@[i] == names@[i],
{
    let mut r: Vec<String> = Vec::new();
    let n: usize = names.len();
    let mut i: usize = 0;
    while i < n
        invariant
            n == names@.len(),
            i <= n,
            r@.len() == i,
            forall|k: int| 0 <= k < i ==> #[trigger] r@[k] == names@[k],
        decreases n - i,
    {
        r.push(names[i].clone());
        i = i + 1;
    }
    r
}

/// Whether this focus position is one of the three selectors.
pub open spec fn is_selector(f: Focus) -> bool {
    !(f is ResourceList)
}

/// The resource type listed at position `i` of the type selector.
pub open spec fn type_at_index(i: usize) -> ResourceType {
    if i == 0 {
        ResourceType::Pods
    } else if i == 1 {
        ResourceType::PersistentVolumeClaims
    } else {
        ResourceType::StatefulSets
    }
}

/// One scroll step down, saturating at the top of the range.
pub open spec fn sat_inc16(x: u16) -> int {
    if x == 0xFFFF {
        0xFFFF
    } else {
        x + 1
    }
}

/// One scroll step up, saturating at zero.
pub open spec fn sat_dec16(x: u16) -> int {
    if x == 0 {
        0
    } else {
        x - 1
    }
}

/// The scroll position that shows the last window of a text of
/// `count` lines: the line count, taken as a 16-bit value, minus the
/// window height, not below zero.
pub open spec fn bottom_scroll(count: int) -> int {
    let t = count % 0x10000;
    if t >= crate::VISIBLE_WINDOW {
        t - crate::VISIBLE_WINDOW
    } else {
        0
    }
}

/// `post` is `pre` with the dropdown query cleared and the dropdown
/// re-ranked, as `dropdown_open` leaves it.
pub open spec fn dropdown_opened(pre: App, post: App) -> bool {
    &&& post == (App {
        dropdown_query: post.dropdown_query,
        dropdown_filtered: post.dropdown_filtered,
        dropdown_selected: post.dropdown_selected,
        ..pre
    })
    &&& post.dropdown_query@.len() == 0
    &&& ranked_view(post.dropdown_filtered@, dropdown_item_views(pre), Seq::<char>::empty())
    &&& post.dropdown_selected as int == clamped_selection(
        pre.dropdown_selected as int,
        post.dropdown_filtered@.len() as int,
    )
}

/// `post` is `pre` with `f` focused, and the dropdown opened when `f` is a
/// selector.
pub open spec fn focus_moved(pre: App, f: Focus, post: App) -> bool {
    if is_selector(f) {
        dropdown_opened(App { focus: f, ..pre }, post)
    } else {
        post == (App { focus: f, ..pre })
    }
}

/// `post` is `pre` with the search results re-ranked under `query` and the
/// highlighted result reset to the top, as `update_search_filter` leaves
/// it.
pub open spec fn search_refiltered(pre: App, query: Seq<char>, post: App) -> bool {
    &&& post == (App {
        search_query: post.search_query,
        search_filtered: post.search_filtered,
        search_table_state: post.search_table_state,
        ..pre
    })
    &&& post.search_query@ == query
    &&& ranked_view(post.search_filtered@, result_name_views(pre.search_results@), query)
    &&& post.search_filtered@.len() == 0 ==> post.search_table_state.selection is None
    &&& post.search_filtered@.len() > 0 ==> post.search_table_state.selection == Some(0usize)
}

/// The filter editor's response to one key, entered with `/`: characters
/// and backspace edit the pending text and reset the selection to the top,
/// Enter commits, Esc cancels without clearing applied text.
pub open spec fn filter_step(pre: App, key: KeyEvent, post: App, act: InputAction) -> bool {
    &&& act == InputAction::Idle
    &&& match key.code {
        KeyCode::Esc => post == (App { filter_active: false, ..pre }),
        KeyCode::Enter => post == (App {
            filter_active: false,
            table_state: (TableState { selection: Some(0usize) }),
            ..pre
        }),
        KeyCode::Backspace => {
            &&& post == (App {
                filter: post.filter,
                table_state: (TableState { selection: Some(0usize) }),
                ..pre
            })
            &&& post.filter@ == (if pre.filter@.len() > 0 {
                pre.filter@.drop_last()
            } else {
                pre.filter@
            })
        },
        KeyCode::Char(c) => {
            &&& post == (App {
                filter: post.filter,
                table_state: (TableState { selection: Some(0usize) }),
                ..pre
            })
            &&& post.filter@ == pre.filter@.push(c)
        },
        _ => post == pre,
    }
}

/// The confirmation dialog's response to one key: only `y`/`Y` confirms and
/// emits the pending action; any other key cancels. Either way the view
/// returns to the list.
pub open spec fn confirm_step(
    pre: App,
    key: KeyEvent,
    action: ConfirmAction,
    post: App,
    act: InputAction,
) -> bool {
    &&& post == (App { view_mode: ViewMode::List, ..pre })
    &&& if key.code == KeyCode::Char('y') || key.code == KeyCode::Char('Y') {
        act == (match action {
            ConfirmAction::Delete => InputAction::Delete,
            ConfirmAction::Restart => InputAction::Restart,
        })
    } else {
        act == InputAction::Idle
    }
}

/// The resource table's response to one key in list view.
pub open spec fn resource_list_step(pre: App, key: KeyEvent, post: App, act: InputAction) -> bool {
    match key.code {
        KeyCode::Char('q') => post == (App { should_quit: true, ..pre }) && act
            == InputAction::Idle,
        KeyCode::Char('j') | KeyCode::Down => act == InputAction::Idle && (if spec_filtered(
            pre,
        ).len() == 0 {
            post == pre
        } else {
            post == (App {
                table_state: (TableState {
                    selection: Some(
                        wrap_next(pre.table_state.selection, spec_filtered(pre).len() as int) as usize,
                    ),
                }),
                ..pre
            })
        }),
        KeyCode::Char('k') | KeyCode::Up => act == InputAction::Idle && (if spec_filtered(
            pre,
        ).len() == 0 {
            post == pre
        } else {
            post == (App {
                table_state: (TableState {
                    selection: Some(
                        wrap_prev(pre.table_state.selection, spec_filtered(pre).len() as int) as usize,
                    ),
                }),
                ..pre
            })
        }),
        KeyCode::Tab => act == InputAction::Idle && focus_moved(pre, next_focus(pre.focus), post),
        KeyCode::BackTab => act == InputAction::Idle && focus_moved(
            pre,
            prev_focus(pre.focus),
            post,
        ),
        KeyCode::Enter => if spec_selected_index(pre) is Some {
            post == (App { view_mode: ViewMode::Detail, detail_scroll: 0, ..pre }) && act
                == InputAction::Describe
        } else {
            post == pre && act == InputAction::Idle
        },
        KeyCode::Char('l') => if pre.resource_type is Pods && spec_selected_index(pre) is Some {
            &&& post == (App {
                view_mode: ViewMode::Logs,
                log_lines: post.log_lines,
                log_scroll: 0,
                log_follow: true,
                ..pre
            })
            &&& post.log_lines@.len() == 0
            &&& act == InputAction::StreamLogs
        } else {
            post == pre && act == InputAction::Idle
        },
        KeyCode::Char('d') => act == InputAction::Idle && (if spec_selected_index(pre) is Some {
            post == (App { view_mode: ViewMode::Confirm(ConfirmAction::Delete), ..pre })
        } else {
            post == pre
        }),
        KeyCode::Char('r') => act == InputAction::Idle && (if spec_selected_index(pre) is Some {
            post == (App { view_mode: ViewMode::Confirm(ConfirmAction::Restart), ..pre })
        } else {
            post == pre
        }),
        KeyCode::Char('e') => post == pre && act == (if spec_selected_index(pre) is Some {
            InputAction::Edit
        } else {
            InputAction::Idle
        }),
        KeyCode::Char('/') => {
            &&& post == (App { filter_active: true, filter: post.filter, ..pre })
            &&& post.filter@.len() == 0
            &&& act == InputAction::Idle
        },
        _ => post == pre && act == InputAction::Idle,
    }
}

/// The state and action after confirming the highlighted dropdown entry:
/// the underlying selection changes (and a changed action is emitted) only
/// if the confirmed value differs, then focus advances, opening the next
/// selector's dropdown.
pub open spec fn dropdown_confirm_step(pre: App, post: App, act: InputAction) -> bool {
    if (pre.dropdown_selected as int) < pre.dropdown_filtered@.len() {
        let item_idx = pre.dropdown_filtered@[pre.dropdown_selected as int];
        let step: (App, InputAction) = match pre.focus {
            Focus::ContextSelector => if item_idx != pre.selected_context {
                (App { selected_context: item_idx, ..pre }, InputAction::ContextChanged)
            } else {
                (pre, InputAction::Idle)
            },
            Focus::NamespaceSelector => if item_idx != pre.selected_namespace {
                (App { selected_namespace: item_idx, ..pre }, InputAction::NamespaceChanged)
            } else {
                (pre, InputAction::Idle)
            },
            Focus::ResourceTypeSelector => if item_idx < 3 && type_at_index(item_idx)
                != pre.resource_type {
                (
                    App { resource_type: type_at_index(item_idx), ..pre },
                    InputAction::ResourceTypeChanged,
                )
            } else {
                (pre, InputAction::Idle)
            },
            Focus::ResourceList => (pre, InputAction::Idle),
        };
        act == step.1 && focus_moved(step.0, next_focus(step.0.focus), post)
    } else {
        act == InputAction::Idle && focus_moved(pre, next_focus(pre.focus), post)
    }
}

/// A focused selector's response to one key in list view.
pub open spec fn selector_step(pre: App, key: KeyEvent, post: App, act: InputAction) -> bool {
    match key.code {
        KeyCode::Esc => post == (App { focus: Focus::ResourceList, ..pre }) && act
            == InputAction::Idle,
        KeyCode::Enter | KeyCode::Tab => dropdown_confirm_step(pre, post, act),
        KeyCode::BackTab => act == InputAction::Idle && focus_moved(
            pre,
            prev_focus(pre.focus),
            post,
        ),
        KeyCode::Char('l') | KeyCode::Right => selector_direct_step(pre, post, act, true),
        KeyCode::Char('h') | KeyCode::Left => selector_direct_step(pre, post, act, false),
        KeyCode::Down => act == InputAction::Idle && (if pre.dropdown_filtered@.len() == 0 {
            post == pre
        } else {
            post == (App {
                dropdown_selected: wrap_next(
                    Some(pre.dropdown_selected),
                    pre.dropdown_filtered@.len() as int,
                ) as usize,
                ..pre
            })
        }),
        KeyCode::Up => act == InputAction::Idle && (if pre.dropdown_filtered@.len() == 0 {
            post == pre
        } else {
            post == (App {
                dropdown_selected: wrap_prev(
                    Some(pre.dropdown_selected),
                    pre.dropdown_filtered@.len() as int,
                ) as usize,
                ..pre
            })
        }),
        KeyCode::Backspace => {
            &&& act == InputAction::Idle
            &&& post == (App {
                dropdown_query: post.dropdown_query,
                dropdown_filtered: post.dropdown_filtered,
                dropdown_selected: 0,
                ..pre
            })
            &&& post.dropdown_query@ == (if pre.dropdown_query@.len() > 0 {
                pre.dropdown_query@.drop_last()
            } else {
                pre.dropdown_query@
            })
            &&& ranked_view(
                post.dropdown_filtered@,
                dropdown_item_views(pre),
                post.dropdown_query@,
            )
        },
        KeyCode::Char(c) => {
            &&& act == InputAction::Idle
            &&& post == (App {
                dropdown_query: post.dropdown_query,
                dropdown_filtered: post.dropdown_filtered,
                dropdown_selected: 0,
                ..pre
            })
            &&& post.dropdown_query@ == pre.dropdown_query@.push(c)
            &&& ranked_view(
                post.dropdown_filtered@,
                dropdown_item_views(pre),
                post.dropdown_query@,
            )
        },
        _ => post == pre && act == InputAction::Idle,
    }
}

/// A directional key on a focused selector: steps the underlying selection
/// forward or backward with wrap-around, and emits a changed action only
/// when the value actually differs.
pub open spec fn selector_direct_step(pre: App, post: App, act: InputAction, fwd: bool) -> bool {
    match pre.focus {
        Focus::ContextSelector => {
            let len = pre.contexts@.len() as int;
            if len == 0 {
                post == pre && act == InputAction::Idle
            } else {
                let ni = if fwd {
                    wrap_next(Some(pre.selected_context), len)
                } else {
                    wrap_prev(Some(pre.selected_context), len)
                };
                if ni != pre.selected_context as int {
                    post == (App { selected_context: ni as usize, ..pre }) && act
                        == InputAction::ContextChanged
                } else {
                    post == pre && act == InputAction::Idle
                }
            }
        },
        Focus::NamespaceSelector => {
            let len = pre.namespaces@.len() as int;
            if len == 0 {
                post == pre && act == InputAction::Idle
            } else {
                let ni = if fwd {
                    wrap_next(Some(pre.selected_namespace), len)
                } else {
                    wrap_prev(Some(pre.selected_namespace), len)
                };
                if ni != pre.selected_namespace as int {
                    post == (App { selected_namespace: ni as usize, ..pre }) && act
                        == InputAction::NamespaceChanged
                } else {
                    post == pre && act == InputAction::Idle
                }
            }
        },
        Focus::ResourceTypeSelector => {
            let nt = if fwd {
                next_resource_type(pre.resource_type)
            } else {
                prev_resource_type(pre.resource_type)
            };
            post == (App { resource_type: nt, ..pre }) && act == InputAction::ResourceTypeChanged
        },
        Focus::ResourceList => post == pre && act == InputAction::Idle,
    }
}

/// The detail view's response to one key (when not entered from search).
pub open spec fn detail_step(pre: App, key: KeyEvent, post: App, act: InputAction) -> bool {
    match key.code {
        KeyCode::Char('q') | KeyCode::Esc => post == (App { view_mode: ViewMode::List, ..pre })
            && act == InputAction::Idle,
        KeyCode::Char('j') | KeyCode::Down => post == (App {
            detail_scroll: sat_inc16(pre.detail_scroll) as u16,
            ..pre
        }) && act == InputAction::Idle,
        KeyCode::Char('k') | KeyCode::Up => post == (App {
            detail_scroll: sat_dec16(pre.detail_scroll) as u16,
            ..pre
        }) && act == InputAction::Idle,
        KeyCode::Char('G') => post == (App {
            detail_scroll: bottom_scroll(crate::text::line_count(pre.detail_text@)) as u16,
            ..pre
        }) && act == InputAction::Idle,
        KeyCode::Char('g') => post == (App { detail_scroll: 0, ..pre }) && act
            == InputAction::Idle,
        KeyCode::Char('l') => if pre.resource_type is Pods && spec_selected_index(pre) is Some {
            &&& post == (App {
                view_mode: ViewMode::Logs,
                log_lines: post.log_lines,
                log_scroll: 0,
                log_follow: true,
                ..pre
            })
            &&& post.log_lines@.len() == 0
            &&& act == InputAction::StreamLogs
        } else {
            post == pre && act == InputAction::Idle
        },
        KeyCode::Char('d') => act == InputAction::Idle && (if spec_selected_index(pre) is Some {
            post == (App { view_mode: ViewMode::Confirm(ConfirmAction::Delete), ..pre })
        } else {
            post == pre
        }),
        KeyCode::Char('r') => act == InputAction::Idle && (if spec_selected_index(pre) is Some {
            post == (App { view_mode: ViewMode::Confirm(ConfirmAction::Restart), ..pre })
        } else {
            post == pre
        }),
        KeyCode::Char('e') => post == pre && act == (if spec_selected_index(pre) is Some {
            InputAction::Edit
        } else {
            InputAction::Idle
        }),
        _ => post == pre && act == InputAction::Idle,
    }
}

/// The logs view's response to one key. Leaving returns to `back` (list
/// view, or search when the logs were entered from search) and stops the
/// stream; scrolling disables follow mode, jumping to the bottom enables
/// it.
pub open spec fn logs_step(
    pre: App,
    key: KeyEvent,
    back: ViewMode,
    post: App,
    act: InputAction,
) -> bool {
    match key.code {
        KeyCode::Char('q') | KeyCode::Esc => post == (App { view_mode: back, ..pre }) && act
            == InputAction::StopLogs,
        KeyCode::Char('f') => post == (App { log_follow: !pre.log_follow, ..pre }) && act
            == InputAction::Idle,
        KeyCode::Char('o') => post == pre && act == InputAction::OpenLogsInEditor,
        KeyCode::Char('O') => post == pre && act == InputAction::OpenLogsInLess,
        KeyCode::Char('G') => post == (App {
            log_scroll: bottom_scroll(pre.log_lines@.len() as int) as u16,
            log_follow: true,
            ..pre
        }) && act == InputAction::Idle,
        KeyCode::Char('g') => post == (App { log_scroll: 0, log_follow: false, ..pre }) && act
            == InputAction::Idle,
        KeyCode::Char('j') | KeyCode::Down => post == (App {
            log_scroll: sat_inc16(pre.log_scroll) as u16,
            log_follow: false,
            ..pre
        }) && act == InputAction::Idle,
        KeyCode::Char('k') | KeyCode::Up => post == (App {
            log_scroll: sat_dec16(pre.log_scroll) as u16,
            log_follow: false,
            ..pre
        }) && act == InputAction::Idle,
        _ => post == pre && act == InputAction::Idle,
    }
}

/// The search view's response to one key: typing re-filters, arrows move
/// the highlight with wrap-around, Enter opens the result's detail view.
pub open spec fn search_step(pre: App, key: KeyEvent, post: App, act: InputAction) -> bool {
    match key.code {
        KeyCode::Esc => post == (App {
            view_mode: ViewMode::List,
            entered_from_search: false,
            ..pre
        }) && act == InputAction::Idle,
        KeyCode::Backspace => act == InputAction::Idle && search_refiltered(
            pre,
            if pre.search_query@.len() > 0 {
                pre.search_query@.drop_last()
            } else {
                pre.search_query@
            },
            post,
        ),
        KeyCode::Char(c) => act == InputAction::Idle && search_refiltered(
            pre,
            pre.search_query@.push(c),
            post,
        ),
        KeyCode::Down | KeyCode::Tab => act == InputAction::Idle && (
        if pre.search_filtered@.len() == 0 {
            post == pre
        } else {
            post == (App {
                search_table_state: (TableState {
                    selection: Some(
                        wrap_next(
                            pre.search_table_state.selection,
                            pre.search_filtered@.len() as int,
                        ) as usize,
                    ),
                }),
                ..pre
            })
        }),
        KeyCode::Up | KeyCode::BackTab => act == InputAction::Idle && (
        if pre.search_filtered@.len() == 0 {
            post == pre
        } else {
            post == (App {
                search_table_state: (TableState {
                    selection: Some(
                        wrap_prev(
                            pre.search_table_state.selection,
                            pre.search_filtered@.len() as int,
                        ) as usize,
                    ),
                }),
                ..pre
            })
        }),
        KeyCode::Enter => if spec_selected_search(pre) is Some {
            &&& post == (App {
                view_mode: ViewMode::Detail,
                entered_from_search: true,
                detail_scroll: 0,
                detail_text: post.detail_text,
                ..pre
            })
            &&& post.detail_text@.len() == 0
            &&& act == InputAction::SearchDescribe
        } else {
            post == pre && act == InputAction::Idle
        },
        _ => post == pre && act == InputAction::Idle,
    }
}

/// The detail view's response to one key when entered from search: leaving
/// returns to the search view, and logs open against the selected search
/// result's own pod.
pub open spec fn search_detail_step(pre: App, key: KeyEvent, post: App, act: InputAction) -> bool {
    match key.code {
        KeyCode::Char('q') | KeyCode::Esc => post == (App { view_mode: ViewMode::Search, ..pre })
            && act == InputAction::Idle,
        KeyCode::Char('j') | KeyCode::Down => post == (App {
            detail_scroll: sat_inc16(pre.detail_scroll) as u16,
            ..pre
        }) && act == InputAction::Idle,
        KeyCode::Char('k') | KeyCode::Up => post == (App {
            detail_scroll: sat_dec16(pre.detail_scroll) as u16,
            ..pre
        }) && act == InputAction::Idle,
        KeyCode::Char('G') => post == (App {
            detail_scroll: bottom_scroll(crate::text::line_count(pre.detail_text@)) as u16,
            ..pre
        }) && act == InputAction::Idle,
        KeyCode::Char('g') => post == (App { detail_scroll: 0, ..pre }) && act
            == InputAction::Idle,
        KeyCode::Char('l') => if spec_selected_search(pre) is Some
            && pre.search_results@[spec_selected_search(pre)->0].resource_type is Pods {
            &&& post == (App {
                view_mode: ViewMode::Logs,
                log_lines: post.log_lines,
                log_scroll: 0,
                log_follow: true,
                ..pre
            })
            &&& post.log_lines@.len() == 0
            &&& act == InputAction::SearchStreamLogs
        } else {
            post == pre && act == InputAction::Idle
        },
        _ => post == pre && act == InputAction::Idle,
    }
}

/// The whole state machine's response to one key press, assembled in the
/// global precedence order: quit, search entry, filter editing, the
/// confirmation dialog, then the active view.
pub open spec fn input_step(pre: App, key: KeyEvent, post: App, act: InputAction) -> bool {
    if key.ctrl && key.code == KeyCode::Char('c') {
        post == (App { should_quit: true, ..pre }) && act == InputAction::Idle
    } else if key.ctrl && key.code == KeyCode::Char('f') && pre.view_mode is List {
        &&& post == (App {
            view_mode: ViewMode::Search,
            search_query: post.search_query,
            search_results: post.search_results,
            search_filtered: post.search_filtered,
            search_table_state: (TableState { selection: None }),
            search_loading: true,
            search_contexts_done: 0,
            entered_from_search: false,
            ..pre
        })
        &&& post.search_query@.len() == 0
        &&& post.search_results@.len() == 0
        &&& post.search_filtered@.len() == 0
        &&& act == InputAction::StartSearch
    } else if pre.filter_active {
        filter_step(pre, key, post, act)
    } else if pre.view_mode is Confirm {
        confirm_step(pre, key, pre.view_mode->Confirm_0, post, act)
    } else {
        match pre.view_mode {
            ViewMode::List => if pre.focus is ResourceList {
                resource_list_step(pre, key, post, act)
            } else {
                selector_step(pre, key, post, act)
            },
            ViewMode::Detail => if pre.entered_from_search {
                search_detail_step(pre, key, post, act)
            } else {
                detail_step(pre, key, post, act)
            },
            ViewMode::Logs => logs_step(
                pre,
                key,
                if pre.entered_from_search {
                    ViewMode::Search
                } else {
                    ViewMode::List
                },
                post,
                act,
            ),
            ViewMode::Search => search_step(pre, key, post, act),
            // Handled by the confirmation branch above; never reached here.
            ViewMode::Confirm(_) => false,
        }
    }
}

/// One tick of the error banner: the message set at tick zero stays
/// through `ERROR_TICKS_LIMIT` ticks and is cleared on the next one.
pub open spec fn tick_spec(a: App) -> App {
    if a.error_message is Some {
        if a.error_ticks >= ERROR_TICKS_LIMIT {
            App { error_message: None, error_ticks: 0, ..a }
        } else {
            App { error_ticks: (a.error_ticks + 1) as u8, ..a }
        }
    } else {
        a
    }
}

/// The state after `n` ticks.
pub open spec fn ticks_after(a: App, n: nat) -> App
    decreases n,
{
    if n == 0 {
        a
    } else {
        tick_spec(ticks_after(a, (n - 1) as nat))
    }
}

/// The search result the search selection points at, if any.
pub open spec fn spec_selected_search(app: App) -> Option<int> {
    match app.search_table_state.selection {
        Option::None => Option::None,
        Option::Some(i) => if (i as int) < app.search_filtered@.len() && (app.search_filtered@[i
            as int] as int) < app.search_results@.len() {
            Option::Some(app.search_filtered@[i as int] as int)
        } else {
            Option::None
        },
    }
}

impl App {
    /// The initial state: offline defaults, list view, resource table
    /// focused, first row selected, nothing loading.
    pub fn new() -> (app: App)
        ensures
            app.contexts@.len() == 1 && app.contexts@[0]@ == "default-context"@,
            app.selected_context == 0,
            app.namespaces@.len() == 1 && app.namespaces@[0]@ == "default"@,
            app.selected_namespace == 0,
            app.resource_type is Pods,
            app.focus is ResourceList,
            app.resources@.len() == 0,
            app.table_state.selection == Some(0usize),
            !app.loading,
            app.detail_text@.len() == 0,
            app.detail_scroll == 0,
            app.log_lines@.len() == 0,
            app.log_scroll == 0,
            app.log_follow,
            app.view_mode is List,
            app.filter@.len() == 0,
            !app.filter_active,
            app.error_message is None,
            app.error_ticks == 0,
            app.dropdown_query@.len() == 0,
            app.dropdown_filtered@.len() == 0,
            app.dropdown_selected == 0,
            app.search_query@.len() == 0,
            app.search_results@.len() == 0,
            app.search_filtered@.len() == 0,
            app.search_table_state.selection is None,
            !app.search_loading,
            app.search_contexts_total == 0,
            app.search_contexts_done == 0,
            !app.entered_from_search,
            !app.should_quit,
    {
        let mut contexts: Vec<String> = Vec::new();
        contexts.push("default-context".to_owned());
        let mut namespaces: Vec<String> = Vec::new();
        namespaces.push("default".to_owned());
        App {
            contexts,
            selected_context: 0,
            namespaces,
            selected_namespace: 0,
            resource_type: ResourceType::Pods,
            focus: Focus::ResourceList,
            resources: Vec::new(),
            table_state: TableState { selection: Some(0) },
            loading: false,
            detail_text: String::new(),
            detail_scroll: 0,
            log_lines: Vec::new(),
            log_scroll: 0,
            log_follow: true,
            view_mode: ViewMode::List,
            filter: String::new(),
            filter_active: false,
            error_message: None,
            error_ticks: 0,
            dropdown_query: String::new(),
            dropdown_filtered: Vec::new(),
            dropdown_selected: 0,
            search_query: String::new(),
            search_results: Vec::new(),
            search_filtered: Vec::new(),
            search_table_state: TableState { selection: None },
            search_loading: false,
            search_contexts_total: 0,
            search_contexts_done: 0,
            entered_from_search: false,
            should_quit: false,
        }
    }

    /// The name of the selected context, or the empty string if the
    /// selection is out of bounds.
    pub fn current_context(&self) -> (r: &str)
        ensures
            (self.selected_context as int) < self.contexts@.len() ==> r@ == self.contexts@[self.selected_context as int]@,
            (self.selected_context as int) >= self.contexts@.len() ==> r@ == Seq::<char>::empty(),
    {
        if self.selected_context < self.contexts.len() {
            self.contexts[self.selected_context].as_str()
        } else {
            proof {
                reveal_strlit("");
                assert(""@ =~= Seq::<char>::empty());
            }
            ""
        }
    }

    /// The name of the selected namespace, or the empty string if the
    /// selection is out of bounds.
    pub fn current_namespace(&self) -> (r: &str)
        ensures
            (self.selected_namespace as int) < self.namespaces@.len() ==> r@ == self.namespaces@[self.selected_namespace as int]@,
            (self.selected_namespace as int) >= self.namespaces@.len() ==> r@ == Seq::<
                char,
            >::empty(),
    {
        if self.selected_namespace < self.namespaces.len() {
            self.namespaces[self.selected_namespace].as_str()
        } else {
            proof {
                reveal_strlit("");
                assert(""@ =~= Seq::<char>::empty());
            }
            ""
        }
    }

    /// Advances the error banner by one tick: the message set at tick zero
    /// stays visible through `ERROR_TICKS_LIMIT` ticks and is cleared on the
    /// next one.
    pub fn handle_tick(&mut self)
        ensures
            *final(self) == tick_spec(*old(self)),
    {
        if self.error_message.is_some() {
            if self.error_ticks >= ERROR_TICKS_LIMIT {
                self.error_message = None;
                self.error_ticks = 0;
            } else {
                self.error_ticks = self.error_ticks + 1;
            }
        }
    }

    /// The positions of the resources that pass the current filter.
    fn filtered_index_list(&self) -> (v: Vec<usize>)
        ensures
            v@.len() == spec_filtered(*self).len(),
            forall|k: int| 0 <= k < v@.len() ==> (#[trigger] v@[k]) as int == spec_filtered(*self)[k],
    {
        let needle = lower_chars(self.filter.as_str());
        let filter_empty = self.filter.as_str().is_empty();
        let n: usize = self.resources.len();
        let mut v: Vec<usize> = Vec::new();
        proof {
            assert(self.resources@.subrange(0, 0) =~= Seq::<ResourceItem>::empty());
        }
        let mut i: usize = 0;
        while i < n
            invariant
                n == self.resources@.len(),
                i <= n,
                needle@ == lower_of(self.filter@),
                filter_empty == (self.filter@.len() == 0),
                v@.len() == filtered_indices(
                    self.resources@.subrange(0, i as int),
                    self.filter@,
                ).len(),
                forall|k: int|
                    0 <= k < v@.len() ==> (#[trigger] v@[k]) as int == filtered_indices(
                        self.resources@.subrange(0, i as int),
                        self.filter@,
                    )[k],
            decreases n - i,
        {
            let ghost pre = self.resources@.subrange(0, i as int);
            let ghost ext = self.resources@.subrange(0, i as int + 1);
            proof {
                assert(ext.drop_last() =~= pre);
                assert(ext.last() == self.resources@[i as int]);
            }
            let passes = if filter_empty {
                true
            } else {
                let hay = lower_chars(self.resources[i].name.as_str());
                crate::fuzzy::contains_chars(&hay, &needle)
            };
            proof {
                assert(passes == passes_filter(self.resources@[i as int], self.filter@));
            }
            if passes {
                v.push(i);
            }
            i = i + 1;
        }
        proof {
            assert(self.resources@.subrange(0, n as int) =~= self.resources@);
        }
        v
    }

    /// The resources that pass the current filter, cloned, in list order.
    pub fn filtered_resources(&self) -> (r: Vec<ResourceItem>)
        ensures
            r@.len() == spec_filtered(*self).len(),
            forall|k: int|
                0 <= k < r@.len() ==> same_item(
                    #[trigger] r@[k],
                    self.resources@[spec_filtered(*self)[k]],
                ),
    {
        proof {
            lemma_filtered_indices_bounds(self.resources@, self.filter@);
        }
        let idxs = self.filtered_index_list();
        let mut r: Vec<ResourceItem> = Vec::new();
        let n: usize = idxs.len();
        let mut k: usize = 0;
        while k < n
            invariant
                n == idxs@.len(),
                k <= n,
                idxs@.len() == spec_filtered(*self).len(),
                forall|t: int|
                    0 <= t < idxs@.len() ==> (#[trigger] idxs@[t]) as int == spec_filtered(
                        *self,
                    )[t],
                forall|t: int|
                    0 <= t < spec_filtered(*self).len() ==> 0 <= #[trigger] spec_filtered(
                        *self,
                    )[t] < self.resources@.len(),
                r@.len() == k,
                forall|t: int|
                    0 <= t < k ==> same_item(
                        #[trigger] r@[t],
                        self.resources@[spec_filtered(*self)[t]],
                    ),
            decreases n - k,
        {
            let j = idxs[k];
            r.push(self.resources[j].clone());
            k = k + 1;
        }
        r
    }

    /// The resource the table selection points at within the filtered list,
    /// if any.
    pub fn selected_resource(&self) -> (r: Option<&ResourceItem>)
        ensures
            r is Some <==> spec_selected_index(*self) is Some,
            r matches Some(item) ==> *item == self.resources@[spec_selected_index(*self)->0],
    {
        proof {
            lemma_filtered_indices_bounds(self.resources@, self.filter@);
        }
        match self.table_state.selected() {
            None => None,
            Some(i) => {
                let idxs = self.filtered_index_list();
                if i < idxs.len() {
                    let j = idxs[i];
                    Some(&self.resources[j])
                } else {
                    None
                }
            },
        }
    }

    /// The name of the selected resource, if any.
    pub fn selected_resource_name(&self) -> (r: Option<String>)
        ensures
            r is Some <==> spec_selected_index(*self) is Some,
            r matches Some(name) ==> name@ == self.resources@[spec_selected_index(*self)->0].name@,
    {
        match self.selected_resource() {
            Some(item) => Some(item.name.clone()),
            None => None,
        }
    }

    /// The search result the search selection points at, if any.
    pub fn selected_search_result(&self) -> (r: Option<&SearchResult>)
        ensures
            r is Some <==> spec_selected_search(*self) is Some,
            r matches Some(res) ==> *res == self.search_results@[spec_selected_search(*self)->0],
    {
        match self.search_table_state.selected() {
            None => None,
            Some(i) => {
                if i < self.search_filtered.len() {
                    let j = self.search_filtered[i];
                    if j < self.search_results.len() {
                        Some(&self.search_results[j])
                    } else {
                        None
                    }
                } else {
                    None
                }
            },
        }
    }

    /// Moves the table selection down by one over the filtered list,
    /// wrapping past the end; a no-op on an empty filtered list.
    fn select_next(&mut self)
        ensures
            spec_filtered(*old(self)).len() == 0 ==> *final(self) == *old(self),
            spec_filtered(*old(self)).len() > 0 ==> *final(self) == (App {
                table_state: (TableState {
                    selection: Some(
                        wrap_next(
                            old(self).table_state.selection,
                            spec_filtered(*old(self)).len() as int,
                        ) as usize,
                    ),
                }),
                ..*old(self)
            }),
    {
        let idxs = self.filtered_index_list();
        let len: usize = idxs.len();
        if len == 0 {
            return ;
        }
        let sel = match self.table_state.selected() {
            Some(i) => wrapped_increment(i, len),
            None => 0,
        };
        self.table_state.select(Some(sel));
    }

    /// Moves the table selection up by one over the filtered list, wrapping
    /// past the start; a no-op on an empty filtered list.
    fn select_prev(&mut self)
        ensures
            spec_filtered(*old(self)).len() == 0 ==> *final(self) == *old(self),
            spec_filtered(*old(self)).len() > 0 ==> *final(self) == (App {
                table_state: (TableState {
                    selection: Some(
                        wrap_prev(
                            old(self).table_state.selection,
                            spec_filtered(*old(self)).len() as int,
                        ) as usize,
                    ),
                }),
                ..*old(self)
            }),
    {
        let idxs = self.filtered_index_list();
        let len: usize = idxs.len();
        if len == 0 {
            return ;
        }
        let sel = match self.table_state.selected() {
            Some(i) => if i == 0 {
                len - 1
            } else {
                i - 1
            },
            None => 0,
        };
        self.table_state.select(Some(sel));
    }

    /// Moves the search selection down by one over the filtered results,
    /// wrapping past the end; a no-op when there are none.
    fn search_select_next(&mut self)
        ensures
            old(self).search_filtered@.len() == 0 ==> *final(self) == *old(self),
            old(self).search_filtered@.len() > 0 ==> *final(self) == (App {
                search_table_state: (TableState {
                    selection: Some(
                        wrap_next(
                            old(self).search_table_state.selection,
                            old(self).search_filtered@.len() as int,
                        ) as usize,
                    ),
                }),
                ..*old(self)
            }),
    {
        let len: usize = self.search_filtered.len();
        if len == 0 {
            return ;
        }
        let sel = match self.search_table_state.selected() {
            Some(i) => wrapped_increment(i, len),
            None => 0,
        };
        self.search_table_state.select(Some(sel));
    }

    /// Moves the search selection up by one over the filtered results,
    /// wrapping past the start; a no-op when there are none.
    fn search_select_prev(&mut self)
        ensures
            old(self).search_filtered@.len() == 0 ==> *final(self) == *old(self),
            old(self).search_filtered@.len() > 0 ==> *final(self) == (App {
                search_table_state: (TableState {
                    selection: Some(
                        wrap_prev(
                            old(self).search_table_state.selection,
                            old(self).search_filtered@.len() as int,
                        ) as usize,
                    ),
                }),
                ..*old(self)
            }),
    {
        let len: usize = self.search_filtered.len();
        if len == 0 {
            return ;
        }
        let sel = match self.search_table_state.selected() {
            Some(i) => if i == 0 {
                len - 1
            } else {
                i - 1
            },
            None => 0,
        };
        self.search_table_state.select(Some(sel));
    }

    /// The entries of the selector the focus is on, cloned: context names,
    /// namespace names, or the resource-type display names; empty when the
    /// resource table has focus.
    pub fn dropdown_items(&self) -> (r: Vec<String>)
        ensures
            r@.len() == dropdown_item_views(*self).len(),
            forall|i: int|
                0 <= i < r@.len() ==> (#[trigger] r@[i])@ == dropdown_item_views(*self)[i],
    {
        match self.focus {
            Focus::ContextSelector => clone_names(&self.contexts),
            Focus::NamespaceSelector => clone_names(&self.namespaces),
            Focus::ResourceTypeSelector => {
                let mut r: Vec<String> = Vec::new();
                r.push("Pods".to_owned());
                r.push("PVCs".to_owned());
                r.push("StatefulSets".to_owned());
                r
            },
            Focus::ResourceList => Vec::new(),
        }
    }

    /// Re-ranks the search results against the current search query and
    /// resets the highlighted result to the top (or clears it when nothing
    /// matches).
    pub fn update_search_filter(&mut self)
        ensures
            *final(self) == (App {
                search_filtered: final(self).search_filtered,
                search_table_state: final(self).search_table_state,
                ..*old(self)
            }),
            ranked_view(
                final(self).search_filtered@,
                result_name_views(old(self).search_results@),
                old(self).search_query@,
            ),
            final(self).search_filtered@.len() == 0
                ==> final(self).search_table_state.selection is None,
            final(self).search_filtered@.len() > 0 ==> final(self).search_table_state.selection
                == Some(0usize),
    {
        let mut names: Vec<String> = Vec::new();
        let n: usize = self.search_results.len();
        let mut i: usize = 0;
        while i < n
            invariant
                n == self.search_results@.len(),
                i <= n,
                names@.len() == i,
                forall|k: int|
                    0 <= k < i ==> #[trigger] names@[k] == self.search_results@[k].resource.name,
            decreases n - i,
        {
            names.push(self.search_results[i].resource.name.clone());
            i = i + 1;
        }
        let idxs = rank_by_fuzzy(&names, self.search_query.as_str());
        proof {
            assert(seq_views(names@) =~= result_name_views(self.search_results@));
        }
        self.search_filtered = idxs;
        if self.search_filtered.len() == 0 {
            self.search_table_state.select(None);
        } else {
            self.search_table_state.select(Some(0));
        }
    }

    /// Re-ranks the focused selector's entries against the dropdown query
    /// and clamps the highlighted entry into the new range.
    pub fn update_dropdown_filter(&mut self)
        ensures
            *final(self) == (App {
                dropdown_filtered: final(self).dropdown_filtered,
                dropdown_selected: final(self).dropdown_selected,
                ..*old(self)
            }),
            ranked_view(
                final(self).dropdown_filtered@,
                dropdown_item_views(*old(self)),
                old(self).dropdown_query@,
            ),
            final(self).dropdown_selected as int == clamped_selection(
                old(self).dropdown_selected as int,
                final(self).dropdown_filtered@.len() as int,
            ),
    {
        let items = self.dropdown_items();
        let idxs = rank_by_fuzzy(&items, self.dropdown_query.as_str());
        proof {
            assert(seq_views(items@) =~= dropdown_item_views(*self));
        }
        self.dropdown_filtered = idxs;
        if self.dropdown_filtered.len() == 0 {
            self.dropdown_selected = 0;
        } else {
            let last: usize = self.dropdown_filtered.len() - 1;
            if self.dropdown_selected > last {
                self.dropdown_selected = last;
            }
        }
    }

    /// Clears the dropdown query and re-ranks, as done whenever focus lands
    /// on a selector.
    pub fn dropdown_open(&mut self)
        ensures
            *final(self) == (App {
                dropdown_query: final(self).dropdown_query,
                dropdown_filtered: final(self).dropdown_filtered,
                dropdown_selected: final(self).dropdown_selected,
                ..*old(self)
            }),
            final(self).dropdown_query@.len() == 0,
            ranked_view(
                final(self).dropdown_filtered@,
                dropdown_item_views(*old(self)),
                Seq::<char>::empty(),
            ),
            final(self).dropdown_selected as int == clamped_selection(
                old(self).dropdown_selected as int,
                final(self).dropdown_filtered@.len() as int,
            ),
    {
        self.dropdown_query = String::new();
        self.update_dropdown_filter();
    }

    fn handle_filter_input(&mut self, key: KeyEvent) -> (act: InputAction)
        ensures
            filter_step(*old(self), key, *final(self), act),
    {
        match key.code {
            KeyCode::Esc => {
                self.filter_active = false;
            },
            KeyCode::Enter => {
                self.filter_active = false;
                self.table_state.select(Some(0));
            },
            KeyCode::Backspace => {
                self.filter.pop();
                self.table_state.select(Some(0));
            },
            KeyCode::Char(c) => {
                self.filter.push(c);
                self.table_state.select(Some(0));
            },
            _ => {},
        }
        InputAction::Idle
    }

    fn handle_confirm_input(&mut self, key: KeyEvent, action: ConfirmAction) -> (act: InputAction)
        ensures
            confirm_step(*old(self), key, action, *final(self), act),
    {
        self.view_mode = ViewMode::List;
        match key.code {
            KeyCode::Char(c) => {
                if c == 'y' || c == 'Y' {
                    match action {
                        ConfirmAction::Delete => InputAction::Delete,
                        ConfirmAction::Restart => InputAction::Restart,
                    }
                } else {
                    InputAction::Idle
                }
            },
            _ => InputAction::Idle,
        }
    }

    /// Advances focus to `f` and opens the dropdown when a selector gains
    /// focus.
    fn move_focus(&mut self, f: Focus)
        ensures
            focus_moved(*old(self), f, *final(self)),
    {
        self.focus = f;
        match self.focus {
            Focus::ResourceList => {},
            _ => {
                self.dropdown_open();
            },
        }
    }

    fn handle_resource_list_input(&mut self, key: KeyEvent) -> (act: InputAction)
        ensures
            resource_list_step(*old(self), key, *final(self), act),
    {
        match key.code {
            KeyCode::Char('q') => {
                self.should_quit = true;
                InputAction::Idle
            },
            KeyCode::Char('j') | KeyCode::Down => {
                self.select_next();
                InputAction::Idle
            },
            KeyCode::Char('k') | KeyCode::Up => {
                self.select_prev();
                InputAction::Idle
            },
            KeyCode::Tab => {
                let f = self.focus.next();
                self.move_focus(f);
                InputAction::Idle
            },
            KeyCode::BackTab => {
                let f = self.focus.prev();
                self.move_focus(f);
                InputAction::Idle
            },
            KeyCode::Enter => {
                if self.selected_resource().is_some() {
                    self.view_mode = ViewMode::Detail;
                    self.detail_scroll = 0;
                    InputAction::Describe
                } else {
                    InputAction::Idle
                }
            },
            KeyCode::Char('l') => {
                let is_pods = match self.resource_type {
                    ResourceType::Pods => true,
                    _ => false,
                };
                if is_pods && self.selected_resource().is_some() {
                    self.view_mode = ViewMode::Logs;
                    self.log_lines = Vec::new();
                    self.log_scroll = 0;
                    self.log_follow = true;
                    InputAction::StreamLogs
                } else {
                    InputAction::Idle
                }
            },
            KeyCode::Char('d') => {
                if self.selected_resource().is_some() {
                    self.view_mode = ViewMode::Confirm(ConfirmAction::Delete);
                }
                InputAction::Idle
            },
            KeyCode::Char('r') => {
                if self.selected_resource().is_some() {
                    self.view_mode = ViewMode::Confirm(ConfirmAction::Restart);
                }
                InputAction::Idle
            },
            KeyCode::Char('e') => {
                if self.selected_resource().is_some() {
                    InputAction::Edit
                } else {
                    InputAction::Idle
                }
            },
            KeyCode::Char('/') => {
                self.filter_active = true;
                self.filter = String::new();
                InputAction::Idle
            },
            _ => InputAction::Idle,
        }
    }

    /// Confirms the highlighted dropdown entry and advances focus.
    fn dropdown_confirm(&mut self) -> (act: InputAction)
        ensures
            dropdown_confirm_step(*old(self), *final(self), act),
    {
        let mut action = InputAction::Idle;
        if self.dropdown_selected < self.dropdown_filtered.len() {
            let item_idx = self.dropdown_filtered[self.dropdown_selected];
            match self.focus {
                Focus::ContextSelector => {
                    if item_idx != self.selected_context {
                        self.selected_context = item_idx;
                        action = InputAction::ContextChanged;
                    }
                },
                Focus::NamespaceSelector => {
                    if item_idx != self.selected_namespace {
                        self.selected_namespace = item_idx;
                        action = InputAction::NamespaceChanged;
                    }
                },
                Focus::ResourceTypeSelector => {
                    if item_idx < 3 {
                        let new_type = if item_idx == 0 {
                            ResourceType::Pods
                        } else if item_idx == 1 {
                            ResourceType::PersistentVolumeClaims
                        } else {
                            ResourceType::StatefulSets
                        };
                        if new_type != self.resource_type {
                            self.resource_type = new_type;
                            action = InputAction::ResourceTypeChanged;
                        }
                    }
                },
                Focus::ResourceList => {},
            }
        }
        let f = self.focus.next();
        self.move_focus(f);
        action
    }

    fn handle_selector_input(&mut self, key: KeyEvent) -> (act: InputAction)
        ensures
            selector_step(*old(self), key, *final(self), act),
    {
        match key.code {
            KeyCode::Esc => {
                self.focus = Focus::ResourceList;
                InputAction::Idle
            },
            KeyCode::Enter | KeyCode::Tab => self.dropdown_confirm(),
            KeyCode::BackTab => {
                let f = self.focus.prev();
                self.move_focus(f);
                InputAction::Idle
            },
            KeyCode::Right => self.selector_direct(true),
            KeyCode::Left => self.selector_direct(false),
            KeyCode::Down => {
                let len = self.dropdown_filtered.len();
                if len > 0 {
                    self.dropdown_selected = wrapped_increment(self.dropdown_selected, len);
                }
                InputAction::Idle
            },
            KeyCode::Up => {
                let len = self.dropdown_filtered.len();
                if len > 0 {
                    self.dropdown_selected = if self.dropdown_selected == 0 {
                        len - 1
                    } else {
                        self.dropdown_selected - 1
                    };
                }
                InputAction::Idle
            },
            KeyCode::Backspace => {
                self.dropdown_query.pop();
                self.dropdown_selected = 0;
                self.update_dropdown_filter();
                InputAction::Idle
            },
            KeyCode::Char(c) => {
                if c == 'l' {
                    self.selector_direct(true)
                } else if c == 'h' {
                    self.selector_direct(false)
                } else {
                    self.dropdown_query.push(c);
                    self.dropdown_selected = 0;
                    self.update_dropdown_filter();
                    InputAction::Idle
                }
            },
            _ => InputAction::Idle,
        }
    }

    /// Steps the focused selector's underlying value directly.
    fn selector_direct(&mut self, fwd: bool) -> (act: InputAction)
        ensures
            selector_direct_step(*old(self), *final(self), act, fwd),
    {
        match self.focus {
            Focus::ContextSelector => {
                let len = self.contexts.len();
                if len == 0 {
                    return InputAction::Idle;
                }
                let ni = if fwd {
                    wrapped_increment(self.selected_context, len)
                } else {
                    if self.selected_context == 0 {
                        len - 1
                    } else {
                        self.selected_context - 1
                    }
                };
                if ni != self.selected_context {
                    self.selected_context = ni;
                    InputAction::ContextChanged
                } else {
                    InputAction::Idle
                }
            },
            Focus::NamespaceSelector => {
                let len = self.namespaces.len();
                if len == 0 {
                    return InputAction::Idle;
                }
                let ni = if fwd {
                    wrapped_increment(self.selected_namespace, len)
                } else {
                    if self.selected_namespace == 0 {
                        len - 1
                    } else {
                        self.selected_namespace - 1
                    }
                };
                if ni != self.selected_namespace {
                    self.selected_namespace = ni;
                    InputAction::NamespaceChanged
                } else {
                    InputAction::Idle
                }
            },
            Focus::ResourceTypeSelector => {
                self.resource_type = if fwd {
                    self.resource_type.next()
                } else {
                    self.resource_type.prev()
                };
                InputAction::ResourceTypeChanged
            },
            Focus::ResourceList => InputAction::Idle,
        }
    }

    fn handle_detail_input(&mut self, key: KeyEvent) -> (act: InputAction)
        ensures
            detail_step(*old(self), key, *final(self), act),
    {
        match key.code {
            KeyCode::Char('q') | KeyCode::Esc => {
                self.view_mode = ViewMode::List;
                InputAction::Idle
            },
            KeyCode::Char('j') | KeyCode::Down => {
                self.detail_scroll = self.detail_scroll.saturating_add(1);
                InputAction::Idle
            },
            KeyCode::Char('k') | KeyCode::Up => {
                self.detail_scroll = self.detail_scroll.saturating_sub(1);
                InputAction::Idle
            },
            KeyCode::Char('G') => {
                let lines = crate::text::count_lines(self.detail_text.as_str());
                let l16: u16 = (lines % 0x10000) as u16;
                self.detail_scroll = l16.saturating_sub(crate::VISIBLE_WINDOW);
                InputAction::Idle
            },
            KeyCode::Char('g') => {
                self.detail_scroll = 0;
                InputAction::Idle
            },
            KeyCode::Char('l') => {
                let is_pods = match self.resource_type {
                    ResourceType::Pods => true,
                    _ => false,
                };
                if is_pods && self.selected_resource().is_some() {
                    self.view_mode = ViewMode::Logs;
                    self.log_lines = Vec::new();
                    self.log_scroll = 0;
                    self.log_follow = true;
                    InputAction::StreamLogs
                } else {
                    InputAction::Idle
                }
            },
            KeyCode::Char('d') => {
                if self.selected_resource().is_some() {
                    self.view_mode = ViewMode::Confirm(ConfirmAction::Delete);
                }
                InputAction::Idle
            },
            KeyCode::Char('r') => {
                if self.selected_resource().is_some() {
                    self.view_mode = ViewMode::Confirm(ConfirmAction::Restart);
                }
                InputAction::Idle
            },
            KeyCode::Char('e') => {
                if self.selected_resource().is_some() {
                    InputAction::Edit
                } else {
                    InputAction::Idle
                }
            },
            _ => InputAction::Idle,
        }
    }

    fn handle_logs_input(&mut self, key: KeyEvent, back: ViewMode) -> (act: InputAction)
        ensures
            logs_step(*old(self), key, back, *final(self), act),
    {
        match key.code {
            KeyCode::Char('q') | KeyCode::Esc => {
                self.view_mode = back;
                InputAction::StopLogs
            },
            KeyCode::Char('f') => {
                self.log_follow = !self.log_follow;
                InputAction::Idle
            },
            KeyCode::Char('o') => InputAction::OpenLogsInEditor,
            KeyCode::Char('O') => InputAction::OpenLogsInLess,
            KeyCode::Char('G') => {
                let lines = self.log_lines.len();
                let l16: u16 = (lines % 0x10000) as u16;
                self.log_scroll = l16.saturating_sub(crate::VISIBLE_WINDOW);
                self.log_follow = true;
                InputAction::Idle
            },
            KeyCode::Char('g') => {
                self.log_scroll = 0;
                self.log_follow = false;
                InputAction::Idle
            },
            KeyCode::Char('j') | KeyCode::Down => {
                self.log_scroll = self.log_scroll.saturating_add(1);
                self.log_follow = false;
                InputAction::Idle
            },
            KeyCode::Char('k') | KeyCode::Up => {
                self.log_scroll = self.log_scroll.saturating_sub(1);
                self.log_follow = false;
                InputAction::Idle
            },
            _ => InputAction::Idle,
        }
    }

    fn handle_search_input(&mut self, key: KeyEvent) -> (act: InputAction)
        ensures
            search_step(*old(self), key, *final(self), act),
    {
        match key.code {
            KeyCode::Esc => {
                self.view_mode = ViewMode::List;
                self.entered_from_search = false;
                InputAction::Idle
            },
            KeyCode::Backspace => {
                self.search_query.pop();
                self.update_search_filter();
                InputAction::Idle
            },
            KeyCode::Char(c) => {
                self.search_query.push(c);
                self.update_search_filter();
                InputAction::Idle
            },
            KeyCode::Down | KeyCode::Tab => {
                self.search_select_next();
                InputAction::Idle
            },
            KeyCode::Up | KeyCode::BackTab => {
                self.search_select_prev();
                InputAction::Idle
            },
            KeyCode::Enter => {
                if self.selected_search_result().is_some() {
                    self.view_mode = ViewMode::Detail;
                    self.entered_from_search = true;
                    self.detail_scroll = 0;
                    self.detail_text = String::new();
                    InputAction::SearchDescribe
                } else {
                    InputAction::Idle
                }
            },
            _ => InputAction::Idle,
        }
    }

    fn handle_search_detail_input(&mut self, key: KeyEvent) -> (act: InputAction)
        ensures
            search_detail_step(*old(self), key, *final(self), act),
    {
        match key.code {
            KeyCode::Char('q') | KeyCode::Esc => {
                self.view_mode = ViewMode::Search;
                InputAction::Idle
            },
            KeyCode::Char('j') | KeyCode::Down => {
                self.detail_scroll = self.detail_scroll.saturating_add(1);
                InputAction::Idle
            },
            KeyCode::Char('k') | KeyCode::Up => {
                self.detail_scroll = self.detail_scroll.saturating_sub(1);
                InputAction::Idle
            },
            KeyCode::Char('G') => {
                let lines = crate::text::count_lines(self.detail_text.as_str());
                let l16: u16 = (lines % 0x10000) as u16;
                self.detail_scroll = l16.saturating_sub(crate::VISIBLE_WINDOW);
                InputAction::Idle
            },
            KeyCode::Char('g') => {
                self.detail_scroll = 0;
                InputAction::Idle
            },
            KeyCode::Char('l') => {
                let mut pods_selected = false;
                match self.selected_search_result() {
                    Some(result) => {
                        match result.resource_type {
                            ResourceType::Pods => {
                                pods_selected = true;
                            },
                            _ => {},
                        }
                    },
                    None => {},
                }
                if pods_selected {
                    self.view_mode = ViewMode::Logs;
                    self.log_lines = Vec::new();
                    self.log_scroll = 0;
                    self.log_follow = true;
                    InputAction::SearchStreamLogs
                } else {
                    InputAction::Idle
                }
            },
            _ => InputAction::Idle,
        }
    }

    /// Responds to one key press: updates the state and returns the
    /// asynchronous operation the event loop should start, if any.
    pub fn handle_input(&mut self, key: KeyEvent) -> (act: InputAction)
        ensures
            input_step(*old(self), key, *final(self), act),
    {
        if key.ctrl && key.code == KeyCode::Char('c') {
            self.should_quit = true;
            return InputAction::Idle;
        }
        if key.ctrl && key.code == KeyCode::Char('f') {
            let in_list = match self.view_mode {
                ViewMode::List => true,
                _ => false,
            };
            if in_list {
                self.view_mode = ViewMode::Search;
                self.search_query = String::new();
                self.search_results = Vec::new();
                self.search_filtered = Vec::new();
                self.search_table_state.select(None);
                self.search_loading = true;
                self.search_contexts_done = 0;
                self.entered_from_search = false;
                return InputAction::StartSearch;
            }
        }
        if self.filter_active {
            return self.handle_filter_input(key);
        }
        match self.view_mode {
            ViewMode::Confirm(action) => self.handle_confirm_input(key, action),
            ViewMode::List => {
                match self.focus {
                    Focus::ResourceList => self.handle_resource_list_input(key),
                    _ => self.handle_selector_input(key),
                }
            },
            ViewMode::Detail => {
                if self.entered_from_search {
                    self.handle_search_detail_input(key)
                } else {
                    self.handle_detail_input(key)
                }
            },
            ViewMode::Logs => {
                let back = if self.entered_from_search {
                    ViewMode::Search
                } else {
                    ViewMode::List
                };
                self.handle_logs_input(key, back)
            },
            ViewMode::Search => self.handle_search_input(key),
        }
    }

    /// Shows an error banner and restarts its dismissal countdown.
    pub fn set_error(&mut self, msg: String)
        ensures
            *final(self) == (App {
                error_message: Some(msg),
                error_ticks: 0,
                ..*old(self)
            }),
    {
        self.error_message = Some(msg);
        self.error_ticks = 0;
    }

    /// Applies one background event to the state. Key presses are routed to
    /// `handle_input` by the event loop, not here, and leave the state
    /// unchanged.
    #[verifier::rlimit(100)]
    pub fn apply_event(&mut self, event: AppEvent)
        ensures
            apply_event_spec(*old(self), event, *final(self)),
    {
        match event {
            AppEvent::Key(_) => {},
            AppEvent::Resize(_, _) => {},
            AppEvent::Tick => {
                self.handle_tick();
            },
            AppEvent::ResourcesUpdated(items) => {
                self.resources = items;
                self.loading = false;
                let idxs = self.filtered_index_list();
                let len: usize = idxs.len();
                if len > 0 {
                    match self.table_state.selected() {
                        Some(selected) => {
                            if selected >= len {
                                self.table_state.select(Some(len - 1));
                            }
                        },
                        None => {},
                    }
                }
            },
            AppEvent::NamespacesLoaded(namespaces) => {
                self.namespaces = namespaces;
                self.selected_namespace = 0;
                self.loading = false;
            },
            AppEvent::DetailLoaded(text) => {
                self.detail_text = text;
                self.loading = false;
            },
            AppEvent::LogLine(line) => {
                self.log_lines.push(line);
                self.loading = false;
            },
            AppEvent::LogStreamEnded => {
                self.loading = false;
            },
            AppEvent::ContextsLoaded { contexts, current } => {
                self.contexts = contexts;
                let n: usize = self.contexts.len();
                let mut i: usize = 0;
                let mut found: bool = false;
                while i < n && !found
                    invariant
                        n == self.contexts@.len(),
                        i <= n,
                        forall|j: int| 0 <= j < i ==> (#[trigger] self.contexts@[j])@ != current@,
                        found ==> i < n && self.contexts@[i as int]@ == current@,
                    decreases n - i + (if found {
                        0int
                    } else {
                        1int
                    }),
                {
                    if self.contexts[i] == current {
                        found = true;
                    } else {
                        i = i + 1;
                    }
                }
                if found {
                    self.selected_context = i;
                }
            },
            AppEvent::K8sError(msg) => {
                self.set_error(msg);
                self.loading = false;
            },
            AppEvent::SearchResultsBatch { context, resource_type, items } => {
                let in_search = match self.view_mode {
                    ViewMode::Search => true,
                    _ => false,
                };
                if in_search {
                    let ghost before = self.search_results@;
                    let ghost entry_state = *self;
                    let ghost all_items = items@;
                    let n: usize = items.len();
                    let mut k: usize = 0;
                    let mut pending = items;
                    proof {
                        assert(pending@ =~= all_items.skip(0));
                    }
                    while k < n
                        invariant
                            n == all_items.len(),
                            n == k + pending@.len(),
                            *self == (App { search_results: self.search_results, ..entry_state }),
                            self.search_results@.len() == before.len() + k,
                            forall|t: int|
                                0 <= t < before.len() ==> #[trigger] self.search_results@[t]
                                    == before[t],
                            forall|t: int|
                                0 <= t < k ==> (#[trigger] self.search_results@[before.len() + t]).resource
                                    == all_items[t] && self.search_results@[before.len()
                                    + t].context@ == context@ && self.search_results@[before.len()
                                    + t].resource_type == resource_type,
                            pending@ == all_items.skip(k as int),
                        decreases n - k,
                    {
                        let ghost pre_pending = pending@;
                        let item = pending.remove(0);
                        proof {
                            assert(pre_pending[0] == all_items.skip(k as int)[0]);
                            assert(all_items.skip(k as int)[0] == all_items[k as int]);
                            assert(item == all_items[k as int]);
                            assert(pending@ =~= all_items.skip(k as int + 1));
                        }
                        self.search_results.push(
                            SearchResult {
                                resource: item,
                                context: context.clone(),
                                resource_type,
                            },
                        );
                        k = k + 1;
                    }
                    self.update_search_filter();
                }
            },
            AppEvent::SearchScanComplete(_) => {
                let in_search = match self.view_mode {
                    ViewMode::Search => true,
                    _ => false,
                };
                if in_search {
                    if self.search_contexts_done < usize::MAX {
                        self.search_contexts_done = self.search_contexts_done + 1;
                    }
                    if self.search_contexts_done >= self.search_contexts_total {
                        self.search_loading = false;
                    }
                }
            },
        }
    }

    /// Prepares the state for a new watch subscription after the context,
    /// namespace, or resource type changed: clears the displayed resources,
    /// enters the loading state, and hands back the triple the new
    /// subscription is for. The event loop must cancel the old subscription
    /// before starting the new one against this target.
    pub fn begin_watch_restart(&mut self, reset_selection: bool) -> (target: WatchTarget)
        ensures
            *final(self) == (App {
                loading: true,
                resources: final(self).resources,
                table_state: if reset_selection {
                    (TableState { selection: Some(0usize) })
                } else {
                    old(self).table_state
                },
                ..*old(self)
            }),
            final(self).resources@.len() == 0,
            (old(self).selected_context as int) < old(self).contexts@.len()
                ==> target.context@ == old(self).contexts@[old(self).selected_context as int]@,
            (old(self).selected_namespace as int) < old(self).namespaces@.len()
                ==> target.namespace@ == old(self).namespaces@[old(self).selected_namespace as int]@,
            target.resource_type == old(self).resource_type,
    {
        self.loading = true;
        self.resources = Vec::new();
        if reset_selection {
            self.table_state.select(Some(0));
        }
        let context: String = self.current_context().to_owned();
        let namespace: String = self.current_namespace().to_owned();
        WatchTarget { context, namespace, resource_type: self.resource_type }
    }
}

/// Wrap-around law: over a non-empty list, stepping the selection stays in
/// range, stepping down from the last entry wraps to the first, and
/// stepping up from the first wraps to the last. (On an empty list the step
/// functions leave the state unchanged, as their cases in
/// `resource_list_step` and `search_step` state.)
pub proof fn lemma_selection_wraps(sel: Option<usize>, len: int)
    requires
        len > 0,
        sel matches Some(i) ==> (i as int) < len,
    ensures
        0 <= wrap_next(sel, len) < len,
        0 <= wrap_prev(sel, len) < len,
        sel matches Some(i) ==> ((i as int) == len - 1 ==> wrap_next(sel, len) == 0),
        sel matches Some(i) ==> ((i as int) < len - 1 ==> wrap_next(sel, len) == (i as int) + 1),
        sel matches Some(i) ==> (i == 0 ==> wrap_prev(sel, len) == len - 1),
        sel matches Some(i) ==> (i > 0 ==> wrap_prev(sel, len) == (i as int) - 1),
{
    match sel {
        Option::Some(i) => {
            if (i as int) == len - 1 {
                vstd::arithmetic::div_mod::lemma_mod_self_0(len);
            } else {
                vstd::arithmetic::div_mod::lemma_small_mod((i + 1) as nat, len as nat);
            }
        },
        Option::None => {},
    }
}

/// Cycle law: with three entries in the filtered list, pressing "down"
/// three times returns the selection to where it started, and changes
/// nothing else.
pub proof fn lemma_three_downs_return(
    pre: App,
    key: KeyEvent,
    s1: App,
    a1: InputAction,
    s2: App,
    a2: InputAction,
    s3: App,
    a3: InputAction,
)
    requires
        pre.view_mode is List,
        pre.focus is ResourceList,
        !pre.filter_active,
        !key.ctrl,
        key.code == KeyCode::Down || key.code == KeyCode::Char('j'),
        spec_filtered(pre).len() == 3,
        pre.table_state.selection matches Some(i) && (i as int) < 3,
        input_step(pre, key, s1, a1),
        input_step(s1, key, s2, a2),
        input_step(s2, key, s3, a3),
    ensures
        s3 == pre,
        a1 == InputAction::Idle && a2 == InputAction::Idle && a3 == InputAction::Idle,
{
    let i = pre.table_state.selection->0 as int;
    lemma_selection_wraps(pre.table_state.selection, 3);
    assert(spec_filtered(s1) == spec_filtered(pre));
    lemma_selection_wraps(s1.table_state.selection, 3);
    assert(spec_filtered(s2) == spec_filtered(pre));
    lemma_selection_wraps(s2.table_state.selection, 3);
    assert(s3.table_state.selection == pre.table_state.selection);
    assert(s3 == pre);
}

/// Confirmation law: with a resource selected in list view, `d` opens the
/// delete confirmation without emitting an action; `y` then emits the
/// delete action and returns to the list, while any other non-control key
/// cancels back to the list with no action and no other state change.
pub proof fn lemma_delete_confirm_flow(
    pre: App,
    s1: App,
    a1: InputAction,
    yes: KeyEvent,
    s2: App,
    a2: InputAction,
    other: KeyEvent,
    s3: App,
    a3: InputAction,
)
    requires
        pre.view_mode is List,
        pre.focus is ResourceList,
        !pre.filter_active,
        spec_selected_index(pre) is Some,
        input_step(pre, KeyEvent { code: KeyCode::Char('d'), ctrl: false }, s1, a1),
        yes.code == KeyCode::Char('y') && !yes.ctrl,
        input_step(s1, yes, s2, a2),
        !other.ctrl,
        other.code != KeyCode::Char('y') && other.code != KeyCode::Char('Y'),
        input_step(s1, other, s3, a3),
    ensures
        a1 == InputAction::Idle,
        s1.view_mode == ViewMode::Confirm(ConfirmAction::Delete),
        a2 == InputAction::Delete,
        s2.view_mode is List,
        a3 == InputAction::Idle,
        s3.view_mode is List,
        s2 == s3,
{
}

/// Error-banner law: an error set at tick zero is still visible after
/// `ERROR_TICKS_LIMIT` ticks and absent starting the next one.
pub proof fn lemma_error_banner_dismissal(a: App)
    requires
        a.error_message is Some,
        a.error_ticks == 0,
    ensures
        forall|n: nat|
            n <= ERROR_TICKS_LIMIT ==> #[trigger] ticks_after(a, n).error_message
                == a.error_message,
        ticks_after(a, (ERROR_TICKS_LIMIT + 1) as nat).error_message is None,
{
    assert forall|n: nat|
        n <= ERROR_TICKS_LIMIT implies #[trigger] ticks_after(a, n).error_message
        == a.error_message by {
        lemma_error_ticks_count(a, n);
    }
    lemma_error_ticks_count(a, ERROR_TICKS_LIMIT as nat);
}

/// After `n` ticks (up to the limit) the banner is unchanged and the
/// counter reads `n`.
proof fn lemma_error_ticks_count(a: App, n: nat)
    requires
        a.error_message is Some,
        a.error_ticks == 0,
        n <= ERROR_TICKS_LIMIT,
    ensures
        ticks_after(a, n) == (App { error_ticks: n as u8, ..a }),
    decreases n,
{
    if n == 0 {
        assert(ticks_after(a, 0) == a);
        assert(a == (App { error_ticks: 0u8, ..a }));
    } else {
        lemma_error_ticks_count(a, (n - 1) as nat);
    }
}

/// The subscription triple a new watch is opened for.
pub struct WatchTarget {
    pub context: String,
    pub namespace: String,
    pub resource_type: ResourceType,
}

/// What applying one background event does to the state.
pub open spec fn apply_event_spec(pre: App, event: AppEvent, post: App) -> bool {
    match event {
        AppEvent::Key(_) => post == pre,
        AppEvent::Resize(_, _) => post == pre,
        AppEvent::Tick => post == tick_spec(pre),
        AppEvent::ResourcesUpdated(items) => {
            let len = filtered_indices(items@, pre.filter@).len() as int;
            let sel = match pre.table_state.selection {
                Option::Some(i) => if len > 0 && i as int >= len {
                    Some((len - 1) as usize)
                } else {
                    pre.table_state.selection
                },
                Option::None => pre.table_state.selection,
            };
            post == (App {
                resources: items,
                loading: false,
                table_state: (TableState { selection: sel }),
                ..pre
            })
        },
        AppEvent::NamespacesLoaded(namespaces) => post == (App {
            namespaces: namespaces,
            selected_namespace: 0,
            loading: false,
            ..pre
        }),
        AppEvent::DetailLoaded(text) => post == (App { detail_text: text, loading: false, ..pre }),
        AppEvent::LogLine(line) => post == (App {
            log_lines: post.log_lines,
            loading: false,
            ..pre
        }) && post.log_lines@ == pre.log_lines@.push(line),
        AppEvent::LogStreamEnded => post == (App { loading: false, ..pre }),
        AppEvent::ContextsLoaded { contexts, current } => {
            &&& post == (App {
                contexts: contexts,
                selected_context: post.selected_context,
                ..pre
            })
            &&& if exists|i: int| 0 <= i < contexts@.len() && (#[trigger] contexts@[i])@
                == current@ {
                &&& (post.selected_context as int) < contexts@.len()
                &&& contexts@[post.selected_context as int]@ == current@
                &&& forall|j: int|
                    0 <= j < post.selected_context ==> (#[trigger] contexts@[j])@ != current@
            } else {
                post.selected_context == pre.selected_context
            }
        },
        AppEvent::K8sError(msg) => post == (App {
            error_message: Some(msg),
            error_ticks: 0,
            loading: false,
            ..pre
        }),
        AppEvent::SearchResultsBatch { context, resource_type, items } => if pre.view_mode
            is Search {
            &&& post == (App {
                search_results: post.search_results,
                search_filtered: post.search_filtered,
                search_table_state: post.search_table_state,
                ..pre
            })
            &&& post.search_results@.len() == pre.search_results@.len() + items@.len()
            &&& forall|t: int|
                0 <= t < pre.search_results@.len() ==> #[trigger] post.search_results@[t]
                    == pre.search_results@[t]
            &&& forall|t: int|
                0 <= t < items@.len() ==> (#[trigger] post.search_results@[pre.search_results@.len()
                    + t]).resource == items@[t] && post.search_results@[pre.search_results@.len()
                    + t].context@ == context@ && post.search_results@[pre.search_results@.len()
                    + t].resource_type == resource_type
            &&& ranked_view(
                post.search_filtered@,
                result_name_views(post.search_results@),
                pre.search_query@,
            )
            &&& post.search_filtered@.len() == 0 ==> post.search_table_state.selection is None
            &&& post.search_filtered@.len() > 0 ==> post.search_table_state.selection == Some(
                0usize,
            )
        } else {
            post == pre
        },
        AppEvent::SearchScanComplete(_) => if pre.view_mode is Search {
            let done = if pre.search_contexts_done == usize::MAX {
                pre.search_contexts_done as int
            } else {
                pre.search_contexts_done + 1
            };
            post == (App {
                search_contexts_done: done as usize,
                search_loading: pre.search_loading && done < pre.search_contexts_total,
                ..pre
            })
        } else {
            post == pre
        },
    }
}

} // verus!
