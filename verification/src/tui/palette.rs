//! The commands of the full-screen view.
use crate::text::{matches_query, query_matches};
use vstd::prelude::*;
use vstd::string::*;

verus! {

/// A command.
#[derive(Clone, Copy, Debug, PartialEq, Eq, Structural)]
pub enum Command {
    NextSession,
    PreviousSession,
    NextAttention,
    FocusCoordinator,
    SessionSwitcher,
    NewSession,
    NewAgent,
    WorktreeActions,
    GitStatus,
    Diff,
    StopSession,
}

/// A command in the palette.
#[derive(Clone, Copy, Debug)]
pub struct PaletteItem {
    pub key_hint: &'static str,
    pub title: &'static str,
    pub command: Command,
}

/// The model of a command in the palette.
pub struct PaletteItemView {
    pub key_hint: Seq<char>,
    pub title: Seq<char>,
    pub command: Command,
}

impl View for PaletteItem {
    type V = PaletteItemView;

    open spec fn view(&self) -> PaletteItemView {
        PaletteItemView {
            key_hint: self.key_hint@,
            title: self.title@,
            command: self.command,
        }
    }
}

/// The key of a command behind the leader key.
pub open spec fn hint(command: Command) -> Seq<char> {
    match command {
        Command::NextSession => "n"@,
        Command::PreviousSession => "p"@,
        Command::NextAttention => "a"@,
        Command::FocusCoordinator => "c"@,
        Command::SessionSwitcher => "s"@,
        Command::NewSession => "t"@,
        Command::NewAgent => "N"@,
        Command::WorktreeActions => "w"@,
        Command::GitStatus => "g"@,
        Command::Diff => "d"@,
        Command::StopSession => "x"@,
    }
}

/// The name of a command.
pub open spec fn title(command: Command) -> Seq<char> {
    match command {
        Command::NextSession => "Next Session"@,
        Command::PreviousSession => "Previous Session"@,
        Command::NextAttention => "Next Attention"@,
        Command::FocusCoordinator => "Focus Coordinator"@,
        Command::SessionSwitcher => "Session Switcher"@,
        Command::NewSession => "New Session"@,
        Command::NewAgent => "New Agent"@,
        Command::WorktreeActions => "Review Actions"@,
        Command::GitStatus => "Git Status"@,
        Command::Diff => "Diff"@,
        Command::StopSession => "Stop Session"@,
    }
}

/// A command in the palette.
pub open spec fn item(command: Command) -> PaletteItemView {
    PaletteItemView { key_hint: hint(command), title: title(command), command }
}

/// The commands of the palette.
pub open spec fn palette() -> Seq<PaletteItemView> {
    seq![
        item(Command::NextSession),
        item(Command::PreviousSession),
        item(Command::NextAttention),
        item(Command::FocusCoordinator),
        item(Command::SessionSwitcher),
        item(Command::NewSession),
        item(Command::NewAgent),
        item(Command::WorktreeActions),
        item(Command::GitStatus),
        item(Command::Diff),
        item(Command::StopSession),
    ]
}

/// Those of some commands that match a query.
pub open spec fn commands_matching(items: Seq<PaletteItemView>, query: Seq<char>) -> Seq<
    PaletteItemView,
>
    decreases items.len(),
{
    if items.len() == 0 {
        Seq::empty()
    } else {
        let front = commands_matching(items.drop_last(), query);
        if query_matches(items.last().key_hint + " "@ + items.last().title, query) {
            front.push(items.last())
        } else {
            front
        }
    }
}

/// The models of commands.
pub open spec fn item_views(items: Seq<PaletteItem>) -> Seq<PaletteItemView> {
    Seq::new(items.len(), |i: int| items[i]@)
}

/// The commands of the palette.
pub fn palette_items() -> (r: Vec<PaletteItem>)
    ensures
        item_views(r@) == palette(),
{
    let r = vec![
        PaletteItem { key_hint: "n", title: "Next Session", command: Command::NextSession },
        PaletteItem { key_hint: "p", title: "Previous Session", command: Command::PreviousSession },
        PaletteItem { key_hint: "a", title: "Next Attention", command: Command::NextAttention },
        PaletteItem {
            key_hint: "c",
            title: "Focus Coordinator",
            command: Command::FocusCoordinator,
        },
        PaletteItem { key_hint: "s", title: "Session Switcher", command: Command::SessionSwitcher },
        PaletteItem { key_hint: "t", title: "New Session", command: Command::NewSession },
        PaletteItem { key_hint: "N", title: "New Agent", command: Command::NewAgent },
        PaletteItem { key_hint: "w", title: "Review Actions", command: Command::WorktreeActions },
        PaletteItem { key_hint: "g", title: "Git Status", command: Command::GitStatus },
        PaletteItem { key_hint: "d", title: "Diff", command: Command::Diff },
        PaletteItem { key_hint: "x", title: "Stop Session", command: Command::StopSession },
    ];
    assert(item_views(r@) =~= palette());
    r
}

/// The commands that match a query.
pub fn filtered_palette_items(query: &str) -> (r: Vec<PaletteItem>)
    ensures
        item_views(r@) == commands_matching(palette(), query@),
        r@.len() <= 11,
{
    let items = palette_items();
    let ghost all = palette();
    let mut r: Vec<PaletteItem> = Vec::new();
    let mut i: usize = 0;
    assert(all.take(0) =~= Seq::empty());
    assert(item_views(r@) =~= Seq::empty());
    assert(items@.len() == item_views(items@).len());
    while i < items.len()
        invariant
            i <= items.len(),
            items@.len() == 11,
            item_views(items@) == all,
            item_views(r@) == commands_matching(all.take(i as int), query@),
            r@.len() <= i,
        decreases items.len() - i,
    {
        assert(item_views(items@)[i as int] == all[i as int]);
        assert(all.take(i as int + 1).drop_last() =~= all.take(i as int));
        let item = items[i];
        let mut text = item.key_hint.to_string();
        text.append(" ");
        text.append(item.title);
        let ghost before = r@;
        if matches_query(text.as_str(), query) {
            r.push(item);
            assert(item_views(r@) =~= item_views(before).push(item@));
        }
        i = i + 1;
    }
    assert(all.take(all.len() as int) =~= all);
    r
}

} // verus!
