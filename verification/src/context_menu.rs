//! Right-click menus: a short list of commands floating at the mouse
//! pointer, for what can be done to the thing under it.
//!
//! A menu is opened with a list of [`MenuEntry`]s: the commands it
//! offers, with separators between groups of them. It lists only the
//! commands that apply to what is showing, deciding with the same
//! [`Command::is_available`] the palette uses, so the two can never
//! disagree about what can be done. Separators are tidied after the
//! filtering: a group that is filtered out altogether leaves no doubled
//! separator behind, and none is shown first or last. With no command
//! left at all there is nothing to show, and [`ContextMenu::new`] gives
//! no menu.
//!
//! The menu is placed with its top left corner at the pointer, moved
//! left or up as needed to fit on the screen. The pointer highlights the
//! row it is over, and a click on a row runs its command; the arrow
//! keys and Enter do the same from the keyboard, and Escape closes the
//! menu. Any other key closes it too and then does what it always does.

use crate::command::{Command, Context, applies, label_of, shortcut_of};
use crate::geometry::{Rect, framed_inside, inside_frame};
use crate::input::{Key, KeyCode, Mouse, MouseButton, MouseKind};
use crate::text::{span_width, span_width_of};
use vstd::prelude::*;

verus! {

/// One line of the list a menu is opened with.
#[derive(Clone, Copy, Debug, PartialEq, Eq, Structural)]
pub enum MenuEntry {
    Command(Command),
    /// A line between groups of commands.
    Separator,
}

/// What the application should do after the menu handled an event.
#[derive(Clone, Copy, Debug, PartialEq, Eq, Structural)]
pub enum MenuOutcome {
    /// Keep the menu open.
    Continue,
    /// Close the menu; the event is spent.
    Close,
    /// Close the menu and run the command.
    Activate(Command),
    /// The event wasn't the menu's: a key it has no use for, or a press
    /// outside it. Close the menu and let the event go on to whatever it
    /// was meant for.
    Unhandled,
}

// ----- Filtering and tidying ------------------------------------------------

/// The entries kept so far, with one more looked at: a command that
/// applies is kept, one that doesn't is dropped, and a separator is kept
/// only after a command.
pub open spec fn keep_entry(kept: Seq<MenuEntry>, entry: MenuEntry, context: Context) -> Seq<
    MenuEntry,
> {
    match entry {
        MenuEntry::Command(command) => if applies(command, context) {
            kept.push(entry)
        } else {
            kept
        },
        MenuEntry::Separator => if kept.len() > 0 && kept.last() is Command {
            kept.push(entry)
        } else {
            kept
        },
    }
}

/// The entries kept from `entries`, each looked at in turn.
pub open spec fn kept_entries(entries: Seq<MenuEntry>, context: Context) -> Seq<MenuEntry>
    decreases entries.len(),
{
    if entries.len() == 0 {
        Seq::empty()
    } else {
        keep_entry(kept_entries(entries.drop_last(), context), entries.last(), context)
    }
}

/// What a menu of `entries` shows in `context`: the entries kept, less a
/// separator left at the end.
pub open spec fn menu_of(entries: Seq<MenuEntry>, context: Context) -> Seq<MenuEntry> {
    let kept = kept_entries(entries, context);
    if kept.len() > 0 && kept.last() is Separator {
        kept.drop_last()
    } else {
        kept
    }
}

/// The commands among `entries`, in order.
pub open spec fn commands_in(entries: Seq<MenuEntry>) -> Seq<Command>
    decreases entries.len(),
{
    if entries.len() == 0 {
        Seq::empty()
    } else {
        match entries.last() {
            MenuEntry::Command(command) => commands_in(entries.drop_last()).push(command),
            MenuEntry::Separator => commands_in(entries.drop_last()),
        }
    }
}

/// Whether the entry at `i` is a separator.
pub open spec fn separator_at(entries: Seq<MenuEntry>, i: int) -> bool {
    entries[i] is Separator
}

/// No separator comes first, last, or next to another: each stands
/// between two commands.
pub open spec fn is_tidy(entries: Seq<MenuEntry>) -> bool {
    forall|i: int|
        0 <= i < entries.len() && #[trigger] separator_at(entries, i) ==> 0 < i < entries.len() - 1
            && entries[i - 1] is Command && entries[i + 1] is Command
}

/// Keep the entries whose commands apply, and tidy the separators
/// between them so that none comes first, last, or right after another.
pub fn applicable(entries: &[MenuEntry], context: &Context) -> (kept: Vec<MenuEntry>)
    ensures
        kept@ == menu_of(entries@, *context),
{
    let mut kept: Vec<MenuEntry> = Vec::new();
    let mut i: usize = 0;
    while i < entries.len()
        invariant
            i <= entries.len(),
            kept@ == kept_entries(entries@.take(i as int), *context),
        decreases entries.len() - i,
    {
        let entry = entries[i];
        proof {
            assert(entries@.take(i as int + 1).drop_last() =~= entries@.take(i as int));
        }
        match entry {
            MenuEntry::Command(command) => {
                if command.is_available(context) {
                    kept.push(entry);
                }
            },
            MenuEntry::Separator => {
                let n = kept.len();
                if n > 0 {
                    match kept[n - 1] {
                        MenuEntry::Command(_) => kept.push(entry),
                        MenuEntry::Separator => {},
                    }
                }
            },
        }
        i = i + 1;
    }
    proof {
        assert(entries@.take(entries@.len() as int) =~= entries@);
    }
    let n = kept.len();
    if n > 0 {
        match kept[n - 1] {
            MenuEntry::Separator => {
                kept.pop();
            },
            MenuEntry::Command(_) => {},
        }
    }
    kept
}

/// Kept entries never start with a separator nor have two in a row.
proof fn lemma_kept_entries_shape(entries: Seq<MenuEntry>, context: Context)
    ensures
        forall|i: int|
            0 <= i < kept_entries(entries, context).len() && #[trigger] separator_at(
                kept_entries(entries, context),
                i,
            ) ==> 0 < i && kept_entries(entries, context)[i - 1] is Command,
    decreases entries.len(),
{
    if entries.len() > 0 {
        let prev = kept_entries(entries.drop_last(), context);
        let kept = kept_entries(entries, context);
        lemma_kept_entries_shape(entries.drop_last(), context);
        assert forall|i: int|
            0 <= i < kept.len() && #[trigger] separator_at(kept, i) implies 0 < i && kept[i
                - 1] is Command by {
            if i < prev.len() {
                assert(kept[i] == prev[i]);
                assert(separator_at(prev, i));
            }
        }
    }
}

/// The commands kept are the commands given that apply.
proof fn lemma_kept_commands(entries: Seq<MenuEntry>, context: Context)
    ensures
        commands_in(kept_entries(entries, context)) == commands_in(entries).filter(
            |command: Command| applies(command, context),
        ),
    decreases entries.len(),
{
    let pred = |command: Command| applies(command, context);
    if entries.len() == 0 {
        reveal(Seq::filter);
        assert(commands_in(entries).filter(pred) =~= Seq::<Command>::empty());
    } else {
        let rest = entries.drop_last();
        let kept = kept_entries(rest, context);
        lemma_kept_commands(rest, context);
        match entries.last() {
            MenuEntry::Command(command) => {
                commands_in(rest).lemma_filter_push(command, pred);
                if applies(command, context) {
                    assert(kept.push(entries.last()).drop_last() =~= kept);
                }
            },
            MenuEntry::Separator => {
                if kept.len() > 0 && kept.last() is Command {
                    assert(kept.push(entries.last()).drop_last() =~= kept);
                }
            },
        }
    }
}

/// A tidy list with no commands is empty.
proof fn lemma_tidy_without_commands_is_empty(entries: Seq<MenuEntry>)
    requires
        is_tidy(entries),
        commands_in(entries).len() == 0,
    ensures
        entries.len() == 0,
{
    if entries.len() > 0 {
        match entries.last() {
            MenuEntry::Command(_) => {},
            MenuEntry::Separator => {
                assert(separator_at(entries, entries.len() - 1));
            },
        }
    }
}

/// A menu shows the commands given that apply, in order, with no
/// separator first, last, or next to another; and so it has entries
/// exactly when some command given applies.
pub proof fn menu_keeps_the_applicable_commands_tidily(entries: Seq<MenuEntry>, context: Context)
    ensures
        commands_in(menu_of(entries, context)) == commands_in(entries).filter(
            |command: Command| applies(command, context),
        ),
        is_tidy(menu_of(entries, context)),
        menu_of(entries, context).len() == 0 <==> commands_in(entries).filter(
            |command: Command| applies(command, context),
        ).len() == 0,
{
    let kept = kept_entries(entries, context);
    let menu = menu_of(entries, context);
    lemma_kept_commands(entries, context);
    lemma_kept_entries_shape(entries, context);
    if kept.len() > 0 && kept.last() is Separator {
        assert(commands_in(menu) == commands_in(kept));
    }
    assert forall|i: int| 0 <= i < menu.len() && #[trigger] separator_at(menu, i) implies 0 < i
        < menu.len() - 1 && menu[i - 1] is Command && menu[i + 1] is Command by {
        assert(separator_at(kept, i));
        if i + 1 < kept.len() {
            if kept[i + 1] is Separator {
                assert(separator_at(kept, i + 1));
            }
        } else {
            assert(kept.last() is Separator);
        }
    }
    if menu.len() == 0 {
        assert(commands_in(menu) =~= Seq::<Command>::empty());
    } else {
        if commands_in(menu).len() == 0 {
            lemma_tidy_without_commands_is_empty(menu);
        }
    }
}

// ----- Moving through the commands -------------------------------------------

/// The first command at or after `start`.
pub open spec fn command_from(entries: Seq<MenuEntry>, start: int) -> Option<int>
    decreases entries.len() - start,
{
    if start < 0 || start >= entries.len() {
        None
    } else if entries[start] is Command {
        Some(start)
    } else {
        command_from(entries, start + 1)
    }
}

/// The last command before `end`.
pub open spec fn command_before(entries: Seq<MenuEntry>, end: int) -> Option<int>
    decreases end,
{
    if end <= 0 || end > entries.len() {
        None
    } else if entries[end - 1] is Command {
        Some(end - 1)
    } else {
        command_before(entries, end - 1)
    }
}

/// The command highlighted after a step down (or up) from `selected`:
/// the next one that way, wrapping around the ends; with nothing
/// highlighted, the first (or last).
pub open spec fn stepped(entries: Seq<MenuEntry>, selected: Option<int>, down: bool) -> Option<
    int,
> {
    let next = match selected {
        Some(current) => if down {
            command_from(entries, current + 1)
        } else {
            command_before(entries, current)
        },
        None => None,
    };
    match next {
        Some(index) => Some(index),
        None => if down {
            command_from(entries, 0)
        } else {
            command_before(entries, entries.len() as int)
        },
    }
}

proof fn lemma_command_from(entries: Seq<MenuEntry>, start: int)
    requires
        0 <= start,
    ensures
        command_from(entries, start) matches Some(i) ==> start <= i < entries.len()
            && entries[i] is Command && forall|j: int| start <= j < i ==> entries[j] is Separator,
        command_from(entries, start) is None ==> forall|j: int|
            start <= j < entries.len() ==> entries[j] is Separator,
    decreases entries.len() - start,
{
    if start < entries.len() && entries[start] is Separator {
        lemma_command_from(entries, start + 1);
    }
}

proof fn lemma_command_before(entries: Seq<MenuEntry>, end: int)
    requires
        end <= entries.len(),
    ensures
        command_before(entries, end) matches Some(i) ==> 0 <= i < end && entries[i] is Command
            && forall|j: int| i < j < end ==> entries[j] is Separator,
        command_before(entries, end) is None ==> forall|j: int|
            0 <= j < end ==> entries[j] is Separator,
    decreases end,
{
    if end > 0 && entries[end - 1] is Separator {
        lemma_command_before(entries, end - 1);
    }
}

/// A step lands on a command whenever there is one.
proof fn lemma_stepped_lands_on_a_command(entries: Seq<MenuEntry>, selected: Option<int>, down: bool)
    requires
        entries.len() > 0,
        entries[0] is Command,
        selected matches Some(i) ==> 0 <= i < entries.len(),
    ensures
        stepped(entries, selected, down) matches Some(i) && 0 <= i < entries.len()
            && entries[i] is Command,
{
    lemma_command_from(entries, 0);
    lemma_command_before(entries, entries.len() as int);
    if let Some(current) = selected {
        lemma_command_from(entries, current + 1);
        lemma_command_before(entries, current);
    }
}

/// Stepping down and then up comes back to where it started, unless the
/// step down wrapped around the end.
pub proof fn step_down_then_up_returns(entries: Seq<MenuEntry>, current: int)
    requires
        0 <= current < entries.len(),
        entries[current] is Command,
        command_from(entries, current + 1) is Some,
    ensures
        stepped(entries, stepped(entries, Some(current), true), false) == Some(current),
{
    lemma_command_from(entries, current + 1);
    let next = command_from(entries, current + 1).unwrap();
    lemma_command_before(entries, next);
    if command_before(entries, next) is None {
        assert(entries[current] is Separator);
    }
}

/// Stepping down from the last command wraps around to the first.
pub proof fn step_down_from_the_last_wraps(entries: Seq<MenuEntry>, current: int)
    requires
        0 <= current < entries.len(),
        command_from(entries, current + 1) is None,
    ensures
        stepped(entries, Some(current), true) == command_from(entries, 0),
{
}

// ----- The menu --------------------------------------------------------------

/// Where a menu `width` by `height` cells opened at `(at_x, at_y)` goes
/// on `screen`: its top left corner at the pointer; with no room to the
/// right, moved left until it fits; with no room below, opened upward
/// with its bottom row at the pointer, or failing that moved up until it
/// fits.
pub open spec fn menu_area(at_x: int, at_y: int, screen: Rect, width: int, height: int) -> Rect {
    let right_most = if screen.right_of() >= width { screen.right_of() - width } else { 0 };
    let x0 = if at_x < right_most { at_x } else { right_most };
    let x = if x0 < screen.x { screen.x as int } else { x0 };
    let y0 = if at_y + height <= screen.bottom_of() {
        at_y
    } else if at_y + 1 >= screen.y + height {
        at_y + 1 - height
    } else {
        screen.bottom_of() - height
    };
    let y = if y0 < screen.y { screen.y as int } else { y0 };
    Rect::at(x as u16, y as u16, width as u16, height as u16)
}

/// Place a menu `width` by `height` cells opened at `(at_x, at_y)`.
pub fn place_menu(at_x: u16, at_y: u16, screen: Rect, width: u16, height: u16) -> (area: Rect)
    requires
        screen.wf(),
        width <= screen.width,
        0 < height <= screen.height,
    ensures
        area == menu_area(at_x as int, at_y as int, screen, width as int, height as int),
        area.wf(),
{
    let x = at_x.min(screen.right().saturating_sub(width)).max(screen.x);
    let bottom = screen.bottom();
    let y0 = if (at_y as u32) + (height as u32) <= bottom as u32 {
        at_y
    } else if (at_y as u32) + 1 >= (screen.y as u32) + (height as u32) {
        ((at_y as u32) + 1 - (height as u32)) as u16
    } else {
        bottom - height
    };
    let y = y0.max(screen.y);
    Rect::new(x, y, width, height)
}

/// A menu placed on a screen big enough for it stays on the screen, and
/// its top left corner is at the pointer when there is room there.
pub proof fn menu_stays_on_the_screen(at_x: int, at_y: int, screen: Rect, width: int, height: int)
    requires
        screen.wf(),
        0 <= at_x <= u16::MAX,
        0 <= at_y <= u16::MAX,
        0 <= width <= screen.width,
        0 < height <= screen.height,
        at_y < screen.bottom_of(),
    ensures
        ({
            let area = menu_area(at_x, at_y, screen, width, height);
            &&& screen.x <= area.x
            &&& area.x + width <= screen.right_of()
            &&& screen.y <= area.y
            &&& area.y + height <= screen.bottom_of()
            &&& (screen.x <= at_x && at_x + width <= screen.right_of()) ==> area.x == at_x
            &&& (screen.y <= at_y && at_y + height <= screen.bottom_of()) ==> area.y == at_y
        }),
{
}

/// The columns the rows need for their labels: the widest label.
pub open spec fn label_column(entries: Seq<MenuEntry>) -> nat
    decreases entries.len(),
{
    if entries.len() == 0 {
        0
    } else {
        let rest = label_column(entries.drop_last());
        match entries.last() {
            MenuEntry::Command(command) => {
                let width = span_width_of(label_of(command));
                if width > rest { width } else { rest }
            },
            MenuEntry::Separator => rest,
        }
    }
}

/// The columns the rows need for their shortcuts: two spaces and the
/// widest shortcut, or nothing when no command has one.
pub open spec fn shortcut_column(entries: Seq<MenuEntry>) -> nat
    decreases entries.len(),
{
    if entries.len() == 0 {
        0
    } else {
        let rest = shortcut_column(entries.drop_last());
        match entries.last() {
            MenuEntry::Command(command) => match shortcut_of(command) {
                Some(key) => {
                    let width = span_width_of(key) + 2;
                    if width > rest { width } else { rest }
                },
                None => rest,
            },
            MenuEntry::Separator => rest,
        }
    }
}

/// `n`, or the most a `usize` holds when it is more.
pub open spec fn min_usize(n: nat) -> usize {
    if n > usize::MAX { usize::MAX } else { n as usize }
}

/// The width the rows need: a space, the widest label, two spaces and
/// the widest shortcut when there is one, and a space; as many columns
/// as a screen has, at most.
pub open spec fn rows_width_of(entries: Seq<MenuEntry>) -> int {
    let wanted = 2 + label_column(entries) + shortcut_column(entries);
    if wanted > u16::MAX { u16::MAX as int } else { wanted as int }
}

/// A menu of commands floating at the pointer.
pub struct ContextMenu {
    /// The entries left after filtering and tidying: at least one
    /// command, with no separator first, last, or next to another.
    entries: Vec<MenuEntry>,
    /// Index into `entries` of the highlighted row, always a command;
    /// `None` until the pointer or a key picks one.
    selected: Option<usize>,
    /// Where the menu was opened: the pointer's position.
    at_x: u16,
    at_y: u16,
    /// The whole menu, including its border, as last laid out.
    area: Rect,
    /// The entry rows, as last laid out.
    rows: Rect,
}

impl ContextMenu {
    #[verifier::type_invariant]
    spec fn tidy(self) -> bool {
        &&& is_tidy(self.entries@)
        &&& self.entries@.len() > 0
        &&& self.entries@[0] is Command
        &&& self.selected matches Some(i) ==> i < self.entries@.len() && self.entries@[i as int] is Command
    }

    /// The entries the menu shows, in order.
    pub closed spec fn shown(&self) -> Seq<MenuEntry> {
        self.entries@
    }

    /// The index of the highlighted entry, if any.
    pub closed spec fn highlighted(&self) -> Option<int> {
        match self.selected {
            Some(i) => Some(i as int),
            None => None,
        }
    }

    /// The pointer position the menu was opened at.
    pub closed spec fn pointer(&self) -> (int, int) {
        (self.at_x as int, self.at_y as int)
    }

    /// The whole menu and its entry rows, as last laid out.
    pub closed spec fn placed(&self) -> (Rect, Rect) {
        (self.area, self.rows)
    }

    /// The highlighted command, if any.
    pub open spec fn highlighted_command(&self) -> Option<Command> {
        match self.highlighted() {
            Some(i) => match self.shown()[i] {
                MenuEntry::Command(command) => Some(command),
                MenuEntry::Separator => None,
            },
            None => None,
        }
    }

    /// A menu of the `entries` that apply in `context`, opened at the
    /// pointer's position, or `None` if no command does: there would be
    /// nothing to show.
    pub fn new(entries: &[MenuEntry], context: &Context, x: u16, y: u16) -> (menu: Option<
        ContextMenu,
    >)
        ensures
            menu is None <==> menu_of(entries@, *context).len() == 0,
            menu matches Some(m) ==> {
                &&& m.shown() == menu_of(entries@, *context)
                &&& m.highlighted() is None
                &&& m.pointer() == (x as int, y as int)
                &&& m.placed() == (Rect::zero(), Rect::zero())
            },
    {
        let kept = applicable(entries, context);
        if kept.len() == 0 {
            return None;
        }
        proof {
            menu_keeps_the_applicable_commands_tidily(entries@, *context);
            if kept@[0] is Separator {
                assert(separator_at(kept@, 0));
            }
        }
        Some(
            ContextMenu {
                entries: kept,
                selected: None,
                at_x: x,
                at_y: y,
                area: Rect::default(),
                rows: Rect::default(),
            },
        )
    }

    /// The commands the menu lists, in order, with `None` for each
    /// separator.
    pub fn commands(&self) -> (listed: Vec<Option<Command>>)
        ensures
            listed@.len() == self.shown().len(),
            forall|i: int|
                0 <= i < listed@.len() ==> #[trigger] listed@[i] == match self.shown()[i] {
                    MenuEntry::Command(command) => Some(command),
                    MenuEntry::Separator => None,
                },
    {
        let mut listed: Vec<Option<Command>> = Vec::new();
        let mut i: usize = 0;
        while i < self.entries.len()
            invariant
                i <= self.entries@.len(),
                listed@.len() == i,
                forall|j: int|
                    0 <= j < i ==> #[trigger] listed@[j] == match self.entries@[j] {
                        MenuEntry::Command(command) => Some(command),
                        MenuEntry::Separator => None,
                    },
            decreases self.entries@.len() - i,
        {
            listed.push(
                match self.entries[i] {
                    MenuEntry::Command(command) => Some(command),
                    MenuEntry::Separator => None,
                },
            );
            i = i + 1;
        }
        listed
    }

    /// The entries the menu shows, in order, for drawing them.
    pub fn entries(&self) -> (entries: &[MenuEntry])
        ensures
            entries@ == self.shown(),
    {
        self.entries.as_slice()
    }

    /// The index of the highlighted entry, if any.
    pub fn selected_index(&self) -> (index: Option<usize>)
        ensures
            match index {
                Some(i) => self.highlighted() == Some(i as int),
                None => self.highlighted() is None,
            },
    {
        self.selected
    }

    /// The highlighted command, if any.
    pub fn selected(&self) -> (command: Option<Command>)
        ensures
            command == self.highlighted_command(),
    {
        proof {
            use_type_invariant(self);
        }
        match self.selected {
            Some(index) => match self.entries[index] {
                MenuEntry::Command(command) => Some(command),
                MenuEntry::Separator => None,
            },
            None => None,
        }
    }

    /// The whole menu, including its border, as last laid out.
    pub fn area(&self) -> (area: Rect)
        ensures
            area == self.placed().0,
    {
        self.area
    }

    /// The entry rows, as last laid out.
    pub fn rows(&self) -> (rows: Rect)
        ensures
            rows == self.placed().1,
    {
        self.rows
    }

    /// Whether the mouse position is over the menu.
    pub fn contains(&self, x: u16, y: u16) -> (over: bool)
        ensures
            over == self.placed().0.holds(x as int, y as int),
    {
        self.area.contains(x, y)
    }

    /// The first command at or after `start`.
    fn first_command_from(&self, start: usize) -> (found: Option<usize>)
        ensures
            match found {
                Some(i) => command_from(self.entries@, start as int) == Some(i as int),
                None => command_from(self.entries@, start as int) is None,
            },
    {
        let mut i = start;
        while i < self.entries.len()
            invariant
                start <= i,
                command_from(self.entries@, start as int) == command_from(self.entries@, i as int),
            decreases self.entries@.len() - i,
        {
            match self.entries[i] {
                MenuEntry::Command(_) => return Some(i),
                MenuEntry::Separator => {},
            }
            i = i + 1;
        }
        None
    }

    /// The last command before `end`.
    fn last_command_before(&self, end: usize) -> (found: Option<usize>)
        requires
            end <= self.entries@.len(),
        ensures
            match found {
                Some(i) => command_before(self.entries@, end as int) == Some(i as int),
                None => command_before(self.entries@, end as int) is None,
            },
    {
        let mut i = end;
        while i > 0
            invariant
                i <= end <= self.entries@.len(),
                command_before(self.entries@, end as int) == command_before(self.entries@, i as int),
            decreases i,
        {
            match self.entries[i - 1] {
                MenuEntry::Command(_) => return Some(i - 1),
                MenuEntry::Separator => {},
            }
            i = i - 1;
        }
        None
    }

    /// Highlight the next command down (or up), wrapping around the
    /// ends; with nothing highlighted, the first (or last).
    fn step(&mut self, down: bool)
        ensures
            final(self).highlighted() == stepped(old(self).shown(), old(self).highlighted(), down),
            final(self).shown() == old(self).shown(),
            final(self).pointer() == old(self).pointer(),
            final(self).placed() == old(self).placed(),
    {
        proof {
            use_type_invariant(&*self);
            lemma_stepped_lands_on_a_command(self.entries@, self.highlighted(), down);
        }
        let next = match self.selected {
            Some(current) => if down {
                assert(current < self.entries.len());
                self.first_command_from(current + 1)
            } else {
                self.last_command_before(current)
            },
            None => None,
        };
        let chosen = match next {
            Some(index) => Some(index),
            None => if down {
                self.first_command_from(0)
            } else {
                self.last_command_before(self.entries.len())
            },
        };
        self.selected = chosen;
    }

    /// Enter: run the highlighted command, if any.
    fn activate(&self) -> (outcome: MenuOutcome)
        ensures
            outcome == match self.highlighted_command() {
                Some(command) => MenuOutcome::Activate(command),
                None => MenuOutcome::Continue,
            },
    {
        match self.selected() {
            Some(command) => MenuOutcome::Activate(command),
            None => MenuOutcome::Continue,
        }
    }

    /// Handle a key: Escape closes, Enter runs the highlighted command,
    /// the arrows step through the commands (Home and End to the first
    /// and last), and any other key is not the menu's.
    pub fn handle_key(&mut self, key: Key) -> (outcome: MenuOutcome)
        ensures
            final(self).shown() == old(self).shown(),
            final(self).pointer() == old(self).pointer(),
            final(self).placed() == old(self).placed(),
            match key.code {
                KeyCode::Esc => outcome == MenuOutcome::Close && final(self).highlighted()
                    == old(self).highlighted(),
                KeyCode::Enter => outcome == match old(self).highlighted_command() {
                    Some(command) => MenuOutcome::Activate(command),
                    None => MenuOutcome::Continue,
                } && final(self).highlighted() == old(self).highlighted(),
                KeyCode::Down => outcome == MenuOutcome::Continue && final(self).highlighted()
                    == stepped(old(self).shown(), old(self).highlighted(), true),
                KeyCode::Up => outcome == MenuOutcome::Continue && final(self).highlighted()
                    == stepped(old(self).shown(), old(self).highlighted(), false),
                KeyCode::Home => outcome == MenuOutcome::Continue && final(self).highlighted()
                    == command_from(old(self).shown(), 0),
                KeyCode::End => outcome == MenuOutcome::Continue && final(self).highlighted()
                    == command_before(old(self).shown(), old(self).shown().len() as int),
                _ => outcome == MenuOutcome::Unhandled && final(self).highlighted() == old(
                    self,
                ).highlighted(),
            },
            key.code is Down || key.code is Up || key.code is Home || key.code is End
                ==> final(self).highlighted_command() is Some,
            final(self).highlighted() matches Some(i) ==> 0 <= i < final(self).shown().len()
                && final(self).shown()[i] is Command,
    {
        proof {
            use_type_invariant(&*self);
            lemma_command_from(self.entries@, 0);
            lemma_command_before(self.entries@, self.entries@.len() as int);
            lemma_stepped_lands_on_a_command(self.entries@, self.highlighted(), true);
            lemma_stepped_lands_on_a_command(self.entries@, self.highlighted(), false);
        }
        match key.code {
            KeyCode::Esc => MenuOutcome::Close,
            KeyCode::Enter => self.activate(),
            KeyCode::Down => {
                self.step(true);
                MenuOutcome::Continue
            },
            KeyCode::Up => {
                self.step(false);
                MenuOutcome::Continue
            },
            KeyCode::Home => {
                let first = self.first_command_from(0);
                self.selected = first;
                MenuOutcome::Continue
            },
            KeyCode::End => {
                let last = self.last_command_before(self.entries.len());
                self.selected = last;
                MenuOutcome::Continue
            },
            _ => MenuOutcome::Unhandled,
        }
    }

    /// The index of the command entry on the row under a position, if
    /// the position is over one (and not over a separator or the
    /// border).
    pub open spec fn command_under(&self, x: int, y: int) -> Option<int> {
        let rows = self.placed().1;
        if !rows.holds(x, y) {
            None
        } else if y - rows.y < self.shown().len() && self.shown()[y - rows.y] is Command {
            Some(y - rows.y)
        } else {
            None
        }
    }

    /// The index of the command entry on the row under a position.
    fn command_at(&self, x: u16, y: u16) -> (index: Option<usize>)
        ensures
            match index {
                Some(i) => self.command_under(x as int, y as int) == Some(i as int),
                None => self.command_under(x as int, y as int) is None,
            },
    {
        if !self.rows.contains(x, y) {
            return None;
        }
        let index = (y - self.rows.y) as usize;
        if index < self.entries.len() {
            match self.entries[index] {
                MenuEntry::Command(_) => Some(index),
                MenuEntry::Separator => None,
            }
        } else {
            None
        }
    }

    /// Handle a mouse event anywhere on the screen. The pointer
    /// highlights the row it is over, and a press on one runs it; a
    /// press anywhere else is [`MenuOutcome::Unhandled`], for the
    /// application to close the menu and act on the press itself. The
    /// release of the button that opened the menu, which arrives once it
    /// is open, does nothing.
    pub fn handle_mouse(&mut self, mouse: Mouse) -> (outcome: MenuOutcome)
        ensures
            final(self).shown() == old(self).shown(),
            final(self).pointer() == old(self).pointer(),
            final(self).placed() == old(self).placed(),
            ({
                let over = old(self).command_under(mouse.column as int, mouse.row as int);
                let inside = old(self).placed().0.holds(mouse.column as int, mouse.row as int);
                match mouse.kind {
                    MouseKind::Moved | MouseKind::Drag(_) => outcome == MenuOutcome::Continue
                        && final(self).highlighted() == over,
                    MouseKind::Down(MouseButton::Left) | MouseKind::Down(MouseButton::Right) => {
                        match over {
                            Some(i) => final(self).highlighted() == Some(i) && outcome
                                == match old(self).shown()[i] {
                                MenuEntry::Command(command) => MenuOutcome::Activate(command),
                                MenuEntry::Separator => MenuOutcome::Continue,
                            },
                            None => final(self).highlighted() == old(self).highlighted() && outcome
                                == if inside {
                                MenuOutcome::Continue
                            } else {
                                MenuOutcome::Unhandled
                            },
                        }
                    },
                    MouseKind::Down(MouseButton::Middle) => final(self).highlighted() == old(
                        self,
                    ).highlighted() && outcome == if inside {
                        MenuOutcome::Continue
                    } else {
                        MenuOutcome::Unhandled
                    },
                    _ => outcome == MenuOutcome::Continue && final(self).highlighted() == old(
                        self,
                    ).highlighted(),
                }
            }),
    {
        proof {
            use_type_invariant(&*self);
        }
        let over = self.command_at(mouse.column, mouse.row);
        match mouse.kind {
            MouseKind::Moved | MouseKind::Drag(_) => {
                self.selected = over;
                MenuOutcome::Continue
            },
            MouseKind::Down(MouseButton::Left) | MouseKind::Down(MouseButton::Right) => match over {
                Some(index) => {
                    self.selected = Some(index);
                    self.activate()
                },
                None => if self.contains(mouse.column, mouse.row) {
                    MenuOutcome::Continue
                } else {
                    MenuOutcome::Unhandled
                },
            },
            MouseKind::Down(MouseButton::Middle) => {
                if self.contains(mouse.column, mouse.row) {
                    MenuOutcome::Continue
                } else {
                    MenuOutcome::Unhandled
                }
            },
            _ => MenuOutcome::Continue,
        }
    }

    /// The width the rows need: a space, the widest label, two spaces
    /// and the widest shortcut when there is one, and a space.
    pub fn rows_width(&self) -> (width: u16)
        ensures
            width == rows_width_of(self.shown()),
    {
        let mut label: usize = 0;
        let mut shortcut: usize = 0;
        let mut i: usize = 0;
        while i < self.entries.len()
            invariant
                i <= self.entries@.len(),
                label == min_usize(label_column(self.entries@.take(i as int))),
                shortcut == min_usize(shortcut_column(self.entries@.take(i as int))),
            decreases self.entries@.len() - i,
        {
            proof {
                assert(self.entries@.take(i as int + 1).drop_last() =~= self.entries@.take(i as int));
            }
            match self.entries[i] {
                MenuEntry::Command(command) => {
                    let width = span_width(command.label());
                    if width > label {
                        label = width;
                    }
                    match command.shortcut() {
                        Some(key) => {
                            let needed = span_width(key).saturating_add(2);
                            if needed > shortcut {
                                shortcut = needed;
                            }
                        },
                        None => {},
                    }
                },
                MenuEntry::Separator => {},
            }
            i = i + 1;
        }
        proof {
            assert(self.entries@.take(self.entries@.len() as int) =~= self.entries@);
        }
        let wanted = label.saturating_add(shortcut).saturating_add(2);
        if wanted > u16::MAX as usize {
            u16::MAX
        } else {
            wanted as u16
        }
    }

    /// Lay the menu out on `screen` for drawing: at the pointer, or as
    /// near it as fits, as wide as its rows need and as tall as its
    /// entries, a border included, cut to the screen. A screen too
    /// small for a menu at all gets none, and nothing is to be drawn.
    pub fn layout(&mut self, screen: Rect) -> (drawn: bool)
        requires
            screen.wf(),
        ensures
            final(self).shown() == old(self).shown(),
            final(self).highlighted() == old(self).highlighted(),
            final(self).pointer() == old(self).pointer(),
            ({
                let wide = rows_width_of(old(self).shown()) + 2;
                let tall = old(self).shown().len() as int + 2;
                let width = if wide < screen.width { wide } else { screen.width as int };
                let height = if tall < screen.height { tall } else { screen.height as int };
                &&& drawn == (width >= 4 && height >= 3)
                &&& drawn ==> final(self).placed().0 == menu_area(
                    old(self).pointer().0,
                    old(self).pointer().1,
                    screen,
                    width,
                    height,
                ) && final(self).placed().1 == framed_inside(final(self).placed().0)
                &&& !drawn ==> final(self).placed() == (Rect::zero(), Rect::zero())
            }),
    {
        proof {
            use_type_invariant(&*self);
        }
        let rows_width = self.rows_width();
        let wide: u32 = rows_width as u32 + 2;
        let width: u16 = if wide < screen.width as u32 { wide as u16 } else { screen.width };
        let count = self.entries.len();
        let height: u16 = if count < screen.height as usize && count + 2 < screen.height as usize {
            (count + 2) as u16
        } else {
            screen.height
        };
        if width < 4 || height < 3 {
            self.area = Rect::default();
            self.rows = Rect::default();
            return false;
        }
        let area = place_menu(self.at_x, self.at_y, screen, width, height);
        self.area = area;
        self.rows = inside_frame(area);
        true
    }
}

/// Where a command's shortcut starts on its row: at the row's right end,
/// a column in, when there is room for it after the label (a column in,
/// and two apart); none when there isn't.
pub open spec fn shortcut_place(rows_x: int, width: int, label: int, needed: int) -> Option<int> {
    if 1 + label + 2 + needed < width {
        Some(rows_x + width - 1 - needed)
    } else {
        None
    }
}

/// Where a command's shortcut `needed` columns wide starts on its row of
/// `rows`, after a label `label` columns wide.
pub fn shortcut_x(rows: Rect, label: usize, needed: usize) -> (x: Option<u16>)
    requires
        rows.wf(),
    ensures
        match x {
            Some(v) => shortcut_place(rows.x as int, rows.width as int, label as int, needed as int)
                == Some(v as int),
            None => shortcut_place(rows.x as int, rows.width as int, label as int, needed as int)
                is None,
        },
{
    let width = rows.width as usize;
    if label < width && needed < width && 1 + label + 2 + needed < width {
        Some(rows.x + (width - 1 - needed) as u16)
    } else {
        None
    }
}

} // verus!
