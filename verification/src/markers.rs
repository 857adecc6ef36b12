//! Map markers: what kind each one is, which chat words name the event
//! kinds, and the reports the bot writes about the markers on the map.

use vstd::prelude::*;
use crate::number::{decimal, push_decimal};
use crate::text::str_equal;

verus! {

/// The kinds of marker the game server reports, with their protocol codes.
#[derive(Clone, Copy, Debug, PartialEq, Eq)]
pub enum MarkerType {
    Undefined,
    Player,
    Explosion,
    VendingMachine,
    Ch47,
    CargoShip,
    Crate,
    GenericRadius,
    PatrolHelicopter,
    TravelingVendor,
}

/// The protocol code of a marker kind.
pub open spec fn marker_code(t: MarkerType) -> i32 {
    match t {
        MarkerType::Undefined => 0,
        MarkerType::Player => 1,
        MarkerType::Explosion => 2,
        MarkerType::VendingMachine => 3,
        MarkerType::Ch47 => 4,
        MarkerType::CargoShip => 5,
        MarkerType::Crate => 6,
        MarkerType::GenericRadius => 7,
        MarkerType::PatrolHelicopter => 8,
        MarkerType::TravelingVendor => 9,
    }
}

/// The name of a marker kind as `{:?}` prints it.
pub open spec fn marker_debug_name(t: MarkerType) -> Seq<char> {
    match t {
        MarkerType::Undefined => "Undefined"@,
        MarkerType::Player => "Player"@,
        MarkerType::Explosion => "Explosion"@,
        MarkerType::VendingMachine => "VendingMachine"@,
        MarkerType::Ch47 => "Ch47"@,
        MarkerType::CargoShip => "CargoShip"@,
        MarkerType::Crate => "Crate"@,
        MarkerType::GenericRadius => "GenericRadius"@,
        MarkerType::PatrolHelicopter => "PatrolHelicopter"@,
        MarkerType::TravelingVendor => "TravelingVendor"@,
    }
}

impl MarkerType {
    /// The protocol code of this marker kind.
    pub fn code(&self) -> (r: i32)
        ensures
            r == marker_code(*self),
    {
        match self {
            MarkerType::Undefined => 0,
            MarkerType::Player => 1,
            MarkerType::Explosion => 2,
            MarkerType::VendingMachine => 3,
            MarkerType::Ch47 => 4,
            MarkerType::CargoShip => 5,
            MarkerType::Crate => 6,
            MarkerType::GenericRadius => 7,
            MarkerType::PatrolHelicopter => 8,
            MarkerType::TravelingVendor => 9,
        }
    }

    /// The name of this marker kind as `{:?}` prints it.
    pub fn debug_name(&self) -> (r: String)
        ensures
            r@ == marker_debug_name(*self),
    {
        match self {
            MarkerType::Undefined => String::from_str("Undefined"),
            MarkerType::Player => String::from_str("Player"),
            MarkerType::Explosion => String::from_str("Explosion"),
            MarkerType::VendingMachine => String::from_str("VendingMachine"),
            MarkerType::Ch47 => String::from_str("Ch47"),
            MarkerType::CargoShip => String::from_str("CargoShip"),
            MarkerType::Crate => String::from_str("Crate"),
            MarkerType::GenericRadius => String::from_str("GenericRadius"),
            MarkerType::PatrolHelicopter => String::from_str("PatrolHelicopter"),
            MarkerType::TravelingVendor => String::from_str("TravelingVendor"),
        }
    }
}

/// The marker code that a chat word for an event names, if it names one.
pub open spec fn event_alias_spec(s: Seq<char>) -> Option<i32> {
    if s == "heli"@ || s == "patrolheli"@ || s == "patrol"@ {
        Some(8)
    } else if s == "cargo"@ || s == "cargoship"@ || s == "ship"@ {
        Some(5)
    } else if s == "crate"@ || s == "lockedcrate"@ {
        Some(6)
    } else if s == "chinook"@ || s == "ch47"@ {
        Some(4)
    } else if s == "largeoil"@ || s == "largerig"@ || s == "smalloil"@ || s == "smallrig"@ {
        Some(6)
    } else {
        None
    }
}

/// The marker code that the chat word `input` names: patrol helicopter,
/// cargo ship, chinook, or locked crate (the oil rigs' crates included).
pub fn parse_event_alias(input: &str) -> (r: Option<i32>)
    ensures
        r == event_alias_spec(input@),
{
    if str_equal(input, "heli") || str_equal(input, "patrolheli") || str_equal(input, "patrol") {
        Some(8)
    } else if str_equal(input, "cargo") || str_equal(input, "cargoship") || str_equal(
        input,
        "ship",
    ) {
        Some(5)
    } else if str_equal(input, "crate") || str_equal(input, "lockedcrate") {
        Some(6)
    } else if str_equal(input, "chinook") || str_equal(input, "ch47") {
        Some(4)
    } else if str_equal(input, "largeoil") || str_equal(input, "largerig") || str_equal(
        input,
        "smalloil",
    ) || str_equal(input, "smallrig") {
        Some(6)
    } else {
        None
    }
}

/// The label under which an event marker is listed, if the kind is an event.
pub open spec fn event_label_spec(t: MarkerType) -> Option<Seq<char>> {
    match t {
        MarkerType::PatrolHelicopter => Some("Patrol Heli"@),
        MarkerType::CargoShip => Some("Cargo Ship"@),
        MarkerType::Crate => Some("Locked Crate"@),
        MarkerType::Ch47 => Some("Chinook"@),
        MarkerType::TravelingVendor => Some("Traveling Vendor"@),
        MarkerType::Explosion => Some("Explosion/Crash Site"@),
        _ => None,
    }
}

/// The label under which a marker of kind `t` is listed among the active
/// events; `None` for kinds that are not events.
pub fn event_label(t: MarkerType) -> (r: Option<String>)
    ensures
        match r {
            Some(s) => event_label_spec(t) == Some(s@),
            None => event_label_spec(t) is None,
        },
{
    match t {
        MarkerType::PatrolHelicopter => Some(String::from_str("Patrol Heli")),
        MarkerType::CargoShip => Some(String::from_str("Cargo Ship")),
        MarkerType::Crate => Some(String::from_str("Locked Crate")),
        MarkerType::Ch47 => Some(String::from_str("Chinook")),
        MarkerType::TravelingVendor => Some(String::from_str("Traveling Vendor")),
        MarkerType::Explosion => Some(String::from_str("Explosion/Crash Site")),
        _ => None,
    }
}

/// Every code that a chat word names is the code of an event kind.
pub proof fn law_alias_names_event(s: Seq<char>)
    requires
        event_alias_spec(s) is Some,
    ensures
        exists|t: MarkerType| #[trigger]
            marker_code(t) == event_alias_spec(s)->Some_0 && event_label_spec(t) is Some,
{
    let c = event_alias_spec(s)->Some_0;
    if c == 8 {
        assert(marker_code(MarkerType::PatrolHelicopter) == c);
    } else if c == 5 {
        assert(marker_code(MarkerType::CargoShip) == c);
    } else if c == 6 {
        assert(marker_code(MarkerType::Crate) == c);
    } else {
        assert(marker_code(MarkerType::Ch47) == c);
    }
}

/// How many of `s` are of kind `t`.
pub open spec fn count_kind(s: Seq<MarkerType>, t: MarkerType) -> nat
    decreases s.len(),
{
    if s.len() == 0 {
        0
    } else {
        count_kind(s.drop_last(), t) + if s.last() == t {
            1nat
        } else {
            0nat
        }
    }
}

/// The kinds that the summary counts on a line of their own.
pub open spec fn is_tallied(t: MarkerType) -> bool {
    t == MarkerType::PatrolHelicopter || t == MarkerType::CargoShip || t == MarkerType::Crate || t
        == MarkerType::Ch47 || t == MarkerType::TravelingVendor || t == MarkerType::VendingMachine
}

/// How many of `s` are of a kind the summary does not list by name.
pub open spec fn count_other(s: Seq<MarkerType>) -> nat
    decreases s.len(),
{
    if s.len() == 0 {
        0
    } else {
        count_other(s.drop_last()) + if is_tallied(s.last()) {
            0nat
        } else {
            1nat
        }
    }
}

/// The summary of the markers of kinds `s`.
pub open spec fn marker_summary_spec(s: Seq<MarkerType>) -> Seq<char> {
    "Map Markers (total: "@ + decimal(s.len()) + "):\n"@ + "Patrol Heli: "@ + decimal(
        count_kind(s, MarkerType::PatrolHelicopter),
    ) + "\n"@ + "Cargo Ship: "@ + decimal(count_kind(s, MarkerType::CargoShip)) + "\n"@
        + "Locked Crates: "@ + decimal(count_kind(s, MarkerType::Crate)) + "\n"@ + "Chinook: "@
        + decimal(count_kind(s, MarkerType::Ch47)) + "\n"@ + "Traveling Vendor: "@ + decimal(
        count_kind(s, MarkerType::TravelingVendor),
    ) + "\n"@ + "Vending Machines: "@ + decimal(count_kind(s, MarkerType::VendingMachine))
        + "\n"@ + "Other: "@ + decimal(count_other(s))
}

/// Counts of the markers of kinds `kinds`: the total, one line per event kind
/// and for vending machines, and the rest under "Other".
pub fn marker_summary(kinds: &Vec<MarkerType>) -> (r: String)
    ensures
        r@ == marker_summary_spec(kinds@),
{
    let mut heli: usize = 0;
    let mut cargo: usize = 0;
    let mut crates: usize = 0;
    let mut chinook: usize = 0;
    let mut vendor: usize = 0;
    let mut vending: usize = 0;
    let mut other: usize = 0;
    let mut i: usize = 0;
    while i < kinds.len()
        invariant
            i <= kinds@.len(),
            heli == count_kind(kinds@.take(i as int), MarkerType::PatrolHelicopter),
            cargo == count_kind(kinds@.take(i as int), MarkerType::CargoShip),
            crates == count_kind(kinds@.take(i as int), MarkerType::Crate),
            chinook == count_kind(kinds@.take(i as int), MarkerType::Ch47),
            vendor == count_kind(kinds@.take(i as int), MarkerType::TravelingVendor),
            vending == count_kind(kinds@.take(i as int), MarkerType::VendingMachine),
            other == count_other(kinds@.take(i as int)),
            heli + cargo + crates + chinook + vendor + vending + other == i,
        decreases kinds.len() - i,
    {
        assert(kinds@.take(i + 1).drop_last() =~= kinds@.take(i as int));
        match kinds[i] {
            MarkerType::PatrolHelicopter => heli = heli + 1,
            MarkerType::CargoShip => cargo = cargo + 1,
            MarkerType::Crate => crates = crates + 1,
            MarkerType::Ch47 => chinook = chinook + 1,
            MarkerType::TravelingVendor => vendor = vendor + 1,
            MarkerType::VendingMachine => vending = vending + 1,
            _ => other = other + 1,
        }
        i = i + 1;
    }
    assert(kinds@.take(i as int) =~= kinds@);
    let mut r = String::from_str("Map Markers (total: ");
    push_decimal(&mut r, kinds.len() as u64);
    r.append("):\n");
    r.append("Patrol Heli: ");
    push_decimal(&mut r, heli as u64);
    r.append("\n");
    r.append("Cargo Ship: ");
    push_decimal(&mut r, cargo as u64);
    r.append("\n");
    r.append("Locked Crates: ");
    push_decimal(&mut r, crates as u64);
    r.append("\n");
    r.append("Chinook: ");
    push_decimal(&mut r, chinook as u64);
    r.append("\n");
    r.append("Traveling Vendor: ");
    push_decimal(&mut r, vendor as u64);
    r.append("\n");
    r.append("Vending Machines: ");
    push_decimal(&mut r, vending as u64);
    r.append("\n");
    r.append("Other: ");
    push_decimal(&mut r, other as u64);
    r
}

/// Every marker is counted on exactly one line of the summary: the named
/// counts and "Other" add up to the total.
pub proof fn law_summary_counts_add_up(s: Seq<MarkerType>)
    ensures
        count_kind(s, MarkerType::PatrolHelicopter) + count_kind(s, MarkerType::CargoShip)
            + count_kind(s, MarkerType::Crate) + count_kind(s, MarkerType::Ch47) + count_kind(
            s,
            MarkerType::TravelingVendor,
        ) + count_kind(s, MarkerType::VendingMachine) + count_other(s) == s.len(),
    decreases s.len(),
{
    if s.len() > 0 {
        law_summary_counts_add_up(s.drop_last());
    }
}

/// `list` joined with `sep` between consecutive items.
pub open spec fn join(list: Seq<Seq<char>>, sep: Seq<char>) -> Seq<char>
    decreases list.len(),
{
    if list.len() == 0 {
        Seq::empty()
    } else if list.len() == 1 {
        list[0]
    } else {
        join(list.drop_last(), sep) + sep + list.last()
    }
}

/// The views of the strings in `v`.
pub open spec fn string_views(v: Seq<String>) -> Seq<Seq<char>> {
    v.map_values(|s: String| s@)
}

/// The list of active events whose lines are `events`.
pub open spec fn event_list_spec(events: Seq<Seq<char>>) -> Seq<char> {
    if events.len() == 0 {
        "No active events right now"@
    } else {
        "Active Events ("@ + decimal(events.len()) + "):\n"@ + join(events, "\n"@)
    }
}

/// The message listing the active events, one line each.
pub fn event_list_message(events: &Vec<String>) -> (r: String)
    ensures
        r@ == event_list_spec(string_views(events@)),
{
    let ghost views = string_views(events@);
    if events.len() == 0 {
        return String::from_str("No active events right now");
    }
    let mut body = String::new();
    let mut i: usize = 0;
    while i < events.len()
        invariant
            i <= events@.len(),
            views == string_views(events@),
            body@ == join(views.take(i as int), "\n"@),
        decreases events.len() - i,
    {
        assert(views.take(i + 1).drop_last() =~= views.take(i as int));
        if i > 0 {
            body.append("\n");
        }
        body.append(events[i].as_str());
        i = i + 1;
        assert(views.take(i as int).last() == events@[i - 1]@);
    }
    assert(views.take(i as int) =~= views);
    let mut r = String::from_str("Active Events (");
    push_decimal(&mut r, events.len() as u64);
    r.append("):\n");
    r.append(body.as_str());
    r
}

/// The side of the map past which a marker lies, left or right.
#[derive(Clone, Copy, Debug, PartialEq, Eq)]
pub enum HorizontalEdge {
    Left,
    Right,
}

/// The side of the map past which a marker lies, bottom or top.
#[derive(Clone, Copy, Debug, PartialEq, Eq)]
pub enum VerticalEdge {
    Bottom,
    Top,
}

/// The word for a left or right side.
pub open spec fn horizontal_word(h: HorizontalEdge) -> Seq<char> {
    match h {
        HorizontalEdge::Left => "left"@,
        HorizontalEdge::Right => "right"@,
    }
}

/// The word for a bottom or top side.
pub open spec fn vertical_word(v: VerticalEdge) -> Seq<char> {
    match v {
        VerticalEdge::Bottom => "bottom"@,
        VerticalEdge::Top => "top"@,
    }
}

/// The event line for a marker off the map.
pub open spec fn outside_event_spec(
    label: Seq<char>,
    vertical: Option<VerticalEdge>,
    horizontal: Option<HorizontalEdge>,
) -> Seq<char> {
    let direction = match (vertical, horizontal) {
        (None, None) => "outside grids"@,
        (None, Some(h)) => "outside grids - "@ + horizontal_word(h),
        (Some(v), None) => "outside grids - "@ + vertical_word(v),
        (Some(v), Some(h)) => "outside grids - "@ + vertical_word(v) + " "@ + horizontal_word(h),
    };
    label + " ("@ + direction + ")"@
}

/// The event line for a marker off the map, naming the sides it lies past.
pub fn outside_event_line(
    label: &str,
    vertical: Option<VerticalEdge>,
    horizontal: Option<HorizontalEdge>,
) -> (r: String)
    ensures
        r@ == outside_event_spec(label@, vertical, horizontal),
{
    let mut r = String::from_str(label);
    r.append(" (");
    match (vertical, horizontal) {
        (None, None) => r.append("outside grids"),
        (None, Some(h)) => {
            r.append("outside grids - ");
            match h {
                HorizontalEdge::Left => r.append("left"),
                HorizontalEdge::Right => r.append("right"),
            }
        },
        (Some(v), None) => {
            r.append("outside grids - ");
            match v {
                VerticalEdge::Bottom => r.append("bottom"),
                VerticalEdge::Top => r.append("top"),
            }
        },
        (Some(v), Some(h)) => {
            r.append("outside grids - ");
            match v {
                VerticalEdge::Bottom => r.append("bottom"),
                VerticalEdge::Top => r.append("top"),
            }
            r.append(" ");
            match h {
                HorizontalEdge::Left => r.append("left"),
                HorizontalEdge::Right => r.append("right"),
            }
        },
    }
    r.append(")");
    assert(r@ =~= outside_event_spec(label@, vertical, horizontal));
    r
}

/// The event line for a marker on the map.
pub open spec fn located_event_spec(
    label: Seq<char>,
    grid: Seq<char>,
    region: Seq<char>,
    coords: Seq<char>,
) -> Seq<char> {
    label + " at "@ + grid + " ("@ + region + ") - coords: ("@ + coords + ")"@
}

/// The event line for a marker on the map, with its grid cell, region and
/// the already written coordinates.
pub fn located_event_line(label: &str, grid: &str, region: &str, coords: &str) -> (r: String)
    ensures
        r@ == located_event_spec(label@, grid@, region@, coords@),
{
    let mut r = String::from_str(label);
    r.append(" at ");
    r.append(grid);
    r.append(" (");
    r.append(region);
    r.append(") - coords: (");
    r.append(coords);
    r.append(")");
    assert(r@ =~= located_event_spec(label@, grid@, region@, coords@));
    r
}

/// One marker as the debug listing shows it; the coordinates (`x, y`) and
/// radius come already written out.
pub struct MarkerDebugEntry {
    pub kind: MarkerType,
    pub name: String,
    pub coords: String,
    pub radius: String,
    pub id: u32,
}

/// The markers of `s` that are not vending machines, in order.
pub open spec fn non_vending(s: Seq<MarkerDebugEntry>) -> Seq<MarkerDebugEntry>
    decreases s.len(),
{
    if s.len() == 0 {
        Seq::empty()
    } else if s.last().kind == MarkerType::VendingMachine {
        non_vending(s.drop_last())
    } else {
        non_vending(s.drop_last()).push(s.last())
    }
}

/// The block of the debug listing for marker `e`, numbered `n`.
pub open spec fn debug_block(n: nat, e: MarkerDebugEntry) -> Seq<char> {
    decimal(n) + ". Type: "@ + marker_debug_name(e.kind) + "\n"@ + "   Name: '"@ + e.name@
        + "'\n"@ + "   Coords: ("@ + e.coords@ + ")\n"@ + "   Radius: "@ + e.radius@ + "\n"@
        + "   ID: "@ + decimal(e.id as nat) + "\n\n"@
}

/// The blocks for the markers `f`, numbered from 1.
pub open spec fn debug_blocks(f: Seq<MarkerDebugEntry>) -> Seq<char>
    decreases f.len(),
{
    if f.len() == 0 {
        Seq::empty()
    } else {
        debug_blocks(f.drop_last()) + debug_block(f.len(), f.last())
    }
}

/// How many markers the debug listing shows in full.
pub open spec fn debug_listing_limit() -> nat {
    15
}

/// The debug listing of the markers `s`: the markers that are not vending
/// machines, the first fifteen in full and a count of the rest.
pub open spec fn marker_debug_spec(s: Seq<MarkerDebugEntry>) -> Seq<char> {
    let f = non_vending(s);
    let n = f.len();
    let shown = if n > debug_listing_limit() {
        debug_listing_limit()
    } else {
        n
    };
    "Marker Debug ("@ + decimal(n) + " non-vending):\n\n"@ + debug_blocks(f.take(shown as int))
        + if n > debug_listing_limit() {
        "...and "@ + decimal((n - debug_listing_limit()) as nat) + " more"@
    } else {
        Seq::empty()
    }
}

/// Appends the block for marker `e`, numbered `n`.
fn push_debug_block(out: &mut String, n: u64, e: &MarkerDebugEntry)
    ensures
        final(out)@ == old(out)@ + debug_block(n as nat, *e),
{
    push_decimal(out, n);
    out.append(". Type: ");
    let kind = e.kind.debug_name();
    out.append(kind.as_str());
    out.append("\n");
    out.append("   Name: '");
    out.append(e.name.as_str());
    out.append("'\n");
    out.append("   Coords: (");
    out.append(e.coords.as_str());
    out.append(")\n");
    out.append("   Radius: ");
    out.append(e.radius.as_str());
    out.append("\n");
    out.append("   ID: ");
    push_decimal(out, e.id as u64);
    out.append("\n\n");
    assert(out@ =~= old(out)@ + debug_block(n as nat, *e));
}

/// The debug listing of the markers `markers`.
pub fn marker_debug_message(markers: &Vec<MarkerDebugEntry>) -> (r: String)
    ensures
        r@ == marker_debug_spec(markers@),
{
    let mut n: usize = 0;
    let mut i: usize = 0;
    while i < markers.len()
        invariant
            i <= markers@.len(),
            n == non_vending(markers@.take(i as int)).len(),
            n <= i,
        decreases markers.len() - i,
    {
        assert(markers@.take(i + 1).drop_last() =~= markers@.take(i as int));
        match markers[i].kind {
            MarkerType::VendingMachine => {},
            _ => n = n + 1,
        }
        i = i + 1;
    }
    assert(markers@.take(i as int) =~= markers@);
    let ghost f = non_vending(markers@);
    let mut r = String::from_str("Marker Debug (");
    push_decimal(&mut r, n as u64);
    r.append(" non-vending):\n\n");
    let ghost header = r@;
    let mut shown: usize = 0;
    let mut j: usize = 0;
    while j < markers.len()
        invariant
            j <= markers@.len(),
            f == non_vending(markers@),
            n == f.len(),
            shown == if non_vending(markers@.take(j as int)).len() > 15 {
                15
            } else {
                non_vending(markers@.take(j as int)).len()
            },
            r@ == header + debug_blocks(non_vending(markers@.take(j as int)).take(shown as int)),
        decreases markers.len() - j,
    {
        let ghost before = non_vending(markers@.take(j as int));
        assert(markers@.take(j + 1).drop_last() =~= markers@.take(j as int));
        assert(markers@.take(j + 1).last() == markers@[j as int]);
        let is_vending = match markers[j].kind {
            MarkerType::VendingMachine => true,
            _ => false,
        };
        if !is_vending && shown < 15 {
            let ghost after = non_vending(markers@.take(j + 1));
            assert(after == before.push(markers@[j as int]));
            assert(before.take(shown as int) =~= before);
            assert(after.take(shown + 1).drop_last() =~= before);
            assert(after.take(shown + 1).last() == markers@[j as int]);
            push_debug_block(&mut r, (shown + 1) as u64, &markers[j]);
            shown = shown + 1;
        } else if !is_vending {
            let ghost after = non_vending(markers@.take(j + 1));
            assert(after == before.push(markers@[j as int]));
            assert(after.take(15) =~= before.take(15));
        }
        j = j + 1;
    }
    assert(markers@.take(j as int) =~= markers@);
    if n > 15 {
        r.append("...and ");
        push_decimal(&mut r, (n - 15) as u64);
        r.append(" more");
    }
    assert(r@ =~= marker_debug_spec(markers@));
    r
}

/// The summary text for a total and the counts shown on its lines, in
/// order: patrol helicopters, cargo ships, locked crates, chinooks,
/// travelling vendors, vending machines, and the rest.
pub open spec fn summary_text(
    total: nat,
    helicopters: nat,
    cargo_ships: nat,
    crates: nat,
    chinooks: nat,
    vendors: nat,
    vending_machines: nat,
    others: nat,
) -> Seq<char> {
    "Map Markers (total: "@ + decimal(total) + "):\n"@ + "Patrol Heli: "@ + decimal(helicopters)
        + "\n"@ + "Cargo Ship: "@ + decimal(cargo_ships) + "\n"@ + "Locked Crates: "@ + decimal(
        crates,
    ) + "\n"@ + "Chinook: "@ + decimal(chinooks) + "\n"@ + "Traveling Vendor: "@ + decimal(
        vendors,
    ) + "\n"@ + "Vending Machines: "@ + decimal(vending_machines) + "\n"@ + "Other: "@ + decimal(
        others,
    )
}

/// Each labelled line of the summary counts the markers of its own kind:
/// "Patrol Heli" the patrol helicopters, "Cargo Ship" the cargo ships,
/// "Locked Crates" the crates, "Chinook" the CH47s, "Traveling Vendor" the
/// travelling vendors, "Vending Machines" the vending machines, and "Other"
/// every other marker; the first line gives the number of markers.
pub proof fn law_summary_lines_count_own_kind(s: Seq<MarkerType>)
    ensures
        marker_summary_spec(s) == summary_text(
            s.len(),
            count_kind(s, MarkerType::PatrolHelicopter),
            count_kind(s, MarkerType::CargoShip),
            count_kind(s, MarkerType::Crate),
            count_kind(s, MarkerType::Ch47),
            count_kind(s, MarkerType::TravelingVendor),
            count_kind(s, MarkerType::VendingMachine),
            count_other(s),
        ),
{
}

proof fn lemma_counts_of_one_kind(n: nat, t: MarkerType, u: MarkerType)
    ensures
        count_kind(Seq::new(n, |i: int| t), u) == if t == u {
            n
        } else {
            0
        },
        count_other(Seq::new(n, |i: int| t)) == if is_tallied(t) {
            0
        } else {
            n
        },
    decreases n,
{
    if n > 0 {
        lemma_counts_of_one_kind((n - 1) as nat, t, u);
        assert(Seq::new(n, |i: int| t).drop_last() =~= Seq::new((n - 1) as nat, |i: int| t));
    }
}

/// A map holding only markers of one kind shows their number on that kind's
/// line and nothing on the other lines (markers of an unlisted kind all go
/// to "Other").
pub proof fn law_summary_of_one_kind(n: nat, t: MarkerType)
    ensures
        marker_summary_spec(Seq::new(n, |i: int| t)) == summary_text(
            n,
            if t == MarkerType::PatrolHelicopter {
                n
            } else {
                0
            },
            if t == MarkerType::CargoShip {
                n
            } else {
                0
            },
            if t == MarkerType::Crate {
                n
            } else {
                0
            },
            if t == MarkerType::Ch47 {
                n
            } else {
                0
            },
            if t == MarkerType::TravelingVendor {
                n
            } else {
                0
            },
            if t == MarkerType::VendingMachine {
                n
            } else {
                0
            },
            if is_tallied(t) {
                0
            } else {
                n
            },
        ),
{
    lemma_counts_of_one_kind(n, t, MarkerType::PatrolHelicopter);
    lemma_counts_of_one_kind(n, t, MarkerType::CargoShip);
    lemma_counts_of_one_kind(n, t, MarkerType::Crate);
    lemma_counts_of_one_kind(n, t, MarkerType::Ch47);
    lemma_counts_of_one_kind(n, t, MarkerType::TravelingVendor);
    lemma_counts_of_one_kind(n, t, MarkerType::VendingMachine);
}

/// The line for a marker off the map names exactly the edges it lies past:
/// past one edge that edge, past a vertical and a horizontal edge both
/// (vertical first), and past none of them only "outside grids".
pub proof fn law_outside_line_names_edges(label: Seq<char>)
    ensures
        outside_event_spec(label, None, None) == label + " (outside grids)"@,
        outside_event_spec(label, None, Some(HorizontalEdge::Left)) == label
            + " (outside grids - left)"@,
        outside_event_spec(label, None, Some(HorizontalEdge::Right)) == label
            + " (outside grids - right)"@,
        outside_event_spec(label, Some(VerticalEdge::Bottom), None) == label
            + " (outside grids - bottom)"@,
        outside_event_spec(label, Some(VerticalEdge::Top), None) == label
            + " (outside grids - top)"@,
        outside_event_spec(label, Some(VerticalEdge::Bottom), Some(HorizontalEdge::Left)) == label
            + " (outside grids - bottom left)"@,
        outside_event_spec(label, Some(VerticalEdge::Bottom), Some(HorizontalEdge::Right))
            == label + " (outside grids - bottom right)"@,
        outside_event_spec(label, Some(VerticalEdge::Top), Some(HorizontalEdge::Left)) == label
            + " (outside grids - top left)"@,
        outside_event_spec(label, Some(VerticalEdge::Top), Some(HorizontalEdge::Right)) == label
            + " (outside grids - top right)"@,
{
    reveal_strlit(" (");
    reveal_strlit(")");
    reveal_strlit(" ");
    reveal_strlit("outside grids");
    reveal_strlit("outside grids - ");
    reveal_strlit("left");
    reveal_strlit("right");
    reveal_strlit("bottom");
    reveal_strlit("top");
    reveal_strlit(" (outside grids)");
    reveal_strlit(" (outside grids - left)");
    reveal_strlit(" (outside grids - right)");
    reveal_strlit(" (outside grids - bottom)");
    reveal_strlit(" (outside grids - top)");
    reveal_strlit(" (outside grids - bottom left)");
    reveal_strlit(" (outside grids - bottom right)");
    reveal_strlit(" (outside grids - top left)");
    reveal_strlit(" (outside grids - top right)");
    assert(outside_event_spec(label, None, None) =~= label + " (outside grids)"@);
    assert(outside_event_spec(label, None, Some(HorizontalEdge::Left)) =~= label
        + " (outside grids - left)"@);
    assert(outside_event_spec(label, None, Some(HorizontalEdge::Right)) =~= label
        + " (outside grids - right)"@);
    assert(outside_event_spec(label, Some(VerticalEdge::Bottom), None) =~= label
        + " (outside grids - bottom)"@);
    assert(outside_event_spec(label, Some(VerticalEdge::Top), None) =~= label
        + " (outside grids - top)"@);
    assert(outside_event_spec(label, Some(VerticalEdge::Bottom), Some(HorizontalEdge::Left))
        =~= label + " (outside grids - bottom left)"@);
    assert(outside_event_spec(label, Some(VerticalEdge::Bottom), Some(HorizontalEdge::Right))
        =~= label + " (outside grids - bottom right)"@);
    assert(outside_event_spec(label, Some(VerticalEdge::Top), Some(HorizontalEdge::Left))
        =~= label + " (outside grids - top left)"@);
    assert(outside_event_spec(label, Some(VerticalEdge::Top), Some(HorizontalEdge::Right))
        =~= label + " (outside grids - top right)"@);
}

/// Markers past different edges get different lines.
pub proof fn law_outside_lines_differ(
    label: Seq<char>,
    v1: Option<VerticalEdge>,
    h1: Option<HorizontalEdge>,
    v2: Option<VerticalEdge>,
    h2: Option<HorizontalEdge>,
)
    requires
        (v1, h1) != (v2, h2),
    ensures
        outside_event_spec(label, v1, h1) != outside_event_spec(label, v2, h2),
{
    law_outside_line_names_edges(label);
    let a = outside_event_spec(label, v1, h1);
    let b = outside_event_spec(label, v2, h2);
    let n = label.len();
    if a == b {
        // The texts after the label differ in length or in a character.
        assert(a.subrange(n as int, a.len() as int) =~= b.subrange(n as int, b.len() as int));
        reveal_strlit(" (outside grids)");
        reveal_strlit(" (outside grids - left)");
        reveal_strlit(" (outside grids - right)");
        reveal_strlit(" (outside grids - bottom)");
        reveal_strlit(" (outside grids - top)");
        reveal_strlit(" (outside grids - bottom left)");
        reveal_strlit(" (outside grids - bottom right)");
        reveal_strlit(" (outside grids - top left)");
        reveal_strlit(" (outside grids - top right)");
        let ta = a.subrange(n as int, a.len() as int);
        let tb = b.subrange(n as int, b.len() as int);
        assert(ta.len() == tb.len());
        assert(ta[17] == tb[17]);
        assert(ta[18] == tb[18]);
    }
}

} // verus!
