use vstd::prelude::*;

use crate::commands::{Cmd, Commands, Component};
use crate::components::{art_view, cmds_view, drawn, emit, emit_art, lemma_drawn_start, CmdView};
use crate::game_state::GameState;
use crate::goods_map::Inventory;
use crate::location::{location_name, Location};
use crate::screens::{
    border_view, center_text, centered_text, count_text, date_text, emit_border, emit_placed, number_text,
    padded, placed_texts, placed_view, text_at, top_center_view, Date,
};
use crate::text::decimal;

verus! {

/// A line of the drawing of the home port.
pub const HOME_0: &'static str = "  _____[LLL]______[LLL]____";
/// A line of the drawing of the home port.
pub const HOME_1: &'static str = " /     [LLL]      [LLL]    \\";
/// A line of the drawing of the home port.
pub const HOME_2: &'static str = "/___________________________\\";
/// A line of the drawing of the home port.
pub const HOME_3: &'static str = " )=========================(";
/// A line of the drawing of the home port.
pub const HOME_4: &'static str = " '|I .--. I               I|";
/// A line of the drawing of the home port.
pub const HOME_5: &'static str = "  |I | +| I               I|";
/// A line of the drawing of the home port.
pub const HOME_6: &'static str = "  |I_|_+|_I               I|";
/// A line of the drawing of the home port.
pub const HOME_7: &'static str = " /_I______I               I_\\";
/// A line of the drawing of the home port.
pub const HOME_8: &'static str = "  )========               =(";
/// A line of the drawing of the home port.
pub const HOME_9: &'static str = "  |I .--. I               I|";
/// A line of the drawing of the home port.
pub const HOME_10: &'static str = "  |I |<>| I               I|";
/// A line of the drawing of the home port.
pub const HOME_11: &'static str = "  |I |~ | I               I|";
/// A line of the drawing of the home port.
pub const HOME_12: &'static str = "  |I |  | I               I|";
/// A line of the drawing of the home port.
pub const HOME_13: &'static str = "  |I_|__|_I_______________I|";
/// A line of the drawing of the home port.
pub const HOME_14: &'static str = "###(______)##################";
/// A line of the drawing of the home port.
pub const HOME_15: &'static str = " ##(________)   ~\"^\"^~   ## ";
/// A line of the path leading from the home port, drawn while the ship is there.
pub const PATH_CONTINUATION_0: &'static str = "(_________)";
/// A line of the path leading from the home port, drawn while the ship is there.
pub const PATH_CONTINUATION_1: &'static str = "(__________)";
/// A line of the drawing of the ship.
pub const SHIP_0: &'static str = "                             |                            ";
/// A line of the drawing of the ship.
pub const SHIP_1: &'static str = "                 |          )_)                           ";
/// A line of the drawing of the ship.
pub const SHIP_2: &'static str = "                )_)        )___)         |                ";
/// A line of the drawing of the ship.
pub const SHIP_3: &'static str = "               )___)       )____)       )_)\\              ";
/// A line of the drawing of the ship.
pub const SHIP_4: &'static str = "               )____)     /)_____)      )__)\\             ";
/// A line of the drawing of the ship.
pub const SHIP_5: &'static str = "              )_____)    /)______)\\    )___) \\            ";
/// A line of the drawing of the ship.
pub const SHIP_6: &'static str = "             )______)  //)_______) \\\\ )_____) \\\\          ";
/// A line of the drawing of the ship.
pub const SHIP_7: &'static str = "       _____//___|___///_____|______\\\\\\__|_____\\\\\\__=====";
/// A line of the drawing of the ship.
pub const SHIP_8: &'static str = "       \\                                           /     ";
/// A line of the drawing of the ship.
pub const SHIP_9: &'static str = "        \\                                         /      ";
/// A line of the drawing of the ship.
pub const SHIP_10: &'static str = "         \\                                       /____   ";
/// A line of the drawing of the ship.
pub const SHIP_11: &'static str = "--------- \\                                     //.../---";
/// A line of the drawing of the ship.
pub const SHIP_12: &'static str = "   ^^^^^ ^^^^^^^^^^^^^^^^^^^^^   ^^^^^^^^^^  ^^^/.../    ";
/// A line of the drawing of the ship.
pub const SHIP_13: &'static str = "         ^^^^      ^^^    ^^^^^^^^^    ^^^^^  /..../     ";
/// A line of the drawing of the ship.
pub const SHIP_14: &'static str = "                  ^^^      ^^^^             /...../      ";
/// A line of the drawing of the ship.
pub const SHIP_15: &'static str = "                                          /....../       ";
/// A line of the dock beside the ship.
pub const DOCK_CONTINUATION_1_0: &'static str = "/......../";
/// A line of the dock beside the ship.
pub const DOCK_CONTINUATION_2_0: &'static str = "/........./";

/// The lines of the home port.
pub open spec fn home_lines() -> Seq<Seq<char>> {
    seq![
        HOME_0@, HOME_1@, HOME_2@, HOME_3@, HOME_4@, HOME_5@, HOME_6@, HOME_7@,
        HOME_8@, HOME_9@, HOME_10@, HOME_11@, HOME_12@, HOME_13@, HOME_14@, HOME_15@,
    ]
}

/// The lines of the path leading from the home port.
pub open spec fn path_lines() -> Seq<Seq<char>> {
    seq![PATH_CONTINUATION_0@, PATH_CONTINUATION_1@]
}

/// The lines of the ship.
pub open spec fn ship_lines() -> Seq<Seq<char>> {
    seq![
        SHIP_0@, SHIP_1@, SHIP_2@, SHIP_3@, SHIP_4@, SHIP_5@, SHIP_6@, SHIP_7@,
        SHIP_8@, SHIP_9@, SHIP_10@, SHIP_11@, SHIP_12@, SHIP_13@, SHIP_14@, SHIP_15@,
    ]
}

/// The amounts of the goods, one per row from row `y`, their labels
/// right-aligned on the colon (the widest, "Tobacco", at column `x`), each
/// amount right-aligned in four characters.
pub open spec fn inventory_items(inv: Inventory, x: u16, y: u16) -> Seq<(u16, u16, Seq<char>)> {
    seq![
        ((x + 4) as u16, y, count_text("Tea: "@, inv.tea, 4)),
        ((x + 1) as u16, (y + 1) as u16, count_text("Coffee: "@, inv.coffee, 4)),
        ((x + 2) as u16, (y + 2) as u16, count_text("Sugar: "@, inv.sugar, 4)),
        (x, (y + 3) as u16, count_text("Tobacco: "@, inv.tobacco, 4)),
        ((x + 4) as u16, (y + 4) as u16, count_text("Rum: "@, inv.rum, 4)),
        ((x + 1) as u16, (y + 5) as u16, count_text("Cotton: "@, inv.cotton, 4)),
    ]
}

/// The placed texts of [inventory_items].
fn inventory_placed(inv: &Inventory, x: u16, y: u16) -> (r: Vec<(u16, u16, String)>)
    requires
        x + 4 <= u16::MAX,
        y + 5 <= u16::MAX,
    ensures
        placed_texts(r@) == inventory_items(*inv, x, y),
{
    let r = vec![
        (x + 4, y, crate::screens::count_string("Tea: ", inv.tea, 4)),
        (x + 1, y + 1, crate::screens::count_string("Coffee: ", inv.coffee, 4)),
        (x + 2, y + 2, crate::screens::count_string("Sugar: ", inv.sugar, 4)),
        (x, y + 3, crate::screens::count_string("Tobacco: ", inv.tobacco, 4)),
        (x + 4, y + 4, crate::screens::count_string("Rum: ", inv.rum, 4)),
        (x + 1, y + 5, crate::screens::count_string("Cotton: ", inv.cotton, 4)),
    ];
    assert(placed_texts(r@) =~= inventory_items(*inv, x, y));
    r
}

/// The amounts of the goods of an inventory, listed from a column and a row.
pub struct InventoryList<'a>(pub &'a Inventory, pub u16, pub u16);

impl<'a> InventoryList<'a> {
    /// Appends the list; see [inventory_items].
    pub fn emit_into(&self, frame: &mut Commands, Ghost(base): Ghost<Seq<Cmd>>, Ghost(shown): Ghost<Seq<CmdView>>)
        requires
            drawn(old(frame)@, base, shown),
            self.1 + 4 <= u16::MAX,
            self.2 + 5 <= u16::MAX,
        ensures
            drawn(final(frame)@, base, shown + placed_view(inventory_items(*self.0, self.1, self.2))),
    {
        let items = inventory_placed(self.0, self.1, self.2);
        emit_placed(frame, &items, Ghost(base), Ghost(shown));
    }
}

impl<'a> Component for InventoryList<'a> {
    open spec fn can_render(&self) -> bool {
        self.1 + 4 <= u16::MAX && self.2 + 5 <= u16::MAX
    }

    open spec fn draws(&self, cmds: Seq<Cmd>) -> bool {
        cmds_view(cmds) == placed_view(inventory_items(*self.0, self.1, self.2))
    }

    fn render(&self, frame: &mut Commands) -> (r: Result<(), String>)
        ensures
            r is Ok,
    {
        let ghost base = frame@;
        proof { lemma_drawn_start(base); }
        self.emit_into(frame, Ghost(base), Ghost(Seq::empty()));
        assert(Seq::<CmdView>::empty() + placed_view(inventory_items(*self.0, self.1, self.2)) =~= placed_view(
            inventory_items(*self.0, self.1, self.2),
        ));
        Ok(())
    }
}

/// The prices of the port: a heading, and the list under it.
pub open spec fn current_prices_view(prices: Inventory) -> Seq<CmdView> {
    text_at(53, 23, "Captain, the prices of goods here are:"@) + placed_view(inventory_items(prices, 64, 24))
}

/// The prices of the goods at the port.
pub struct CurrentPrices<'a>(pub &'a Inventory);

impl<'a> CurrentPrices<'a> {
    /// Appends the prices; see [current_prices_view].
    pub fn emit_into(&self, frame: &mut Commands, Ghost(base): Ghost<Seq<Cmd>>, Ghost(shown): Ghost<Seq<CmdView>>)
        requires
            drawn(old(frame)@, base, shown),
        ensures
            drawn(final(frame)@, base, shown + current_prices_view(*self.0)),
    {
        crate::screens::emit_str_at(frame, 53, 23, "Captain, the prices of goods here are:", Ghost(base), Ghost(shown));
        let ghost s1 = shown + text_at(53, 23, "Captain, the prices of goods here are:"@);
        InventoryList(self.0, 64, 24).emit_into(frame, Ghost(base), Ghost(s1));
        assert(s1 + placed_view(inventory_items(*self.0, 64, 24)) =~= shown + current_prices_view(*self.0));
    }
}

impl<'a> Component for CurrentPrices<'a> {
    open spec fn can_render(&self) -> bool {
        true
    }

    open spec fn draws(&self, cmds: Seq<Cmd>) -> bool {
        cmds_view(cmds) == current_prices_view(*self.0)
    }

    fn render(&self, frame: &mut Commands) -> (r: Result<(), String>)
        ensures
            r is Ok,
    {
        let ghost base = frame@;
        proof { lemma_drawn_start(base); }
        self.emit_into(frame, Ghost(base), Ghost(Seq::empty()));
        assert(Seq::<CmdView>::empty() + current_prices_view(*self.0) =~= current_prices_view(*self.0));
        Ok(())
    }
}

/// The port's name framed above the divider: between two arrows, centered in thirteen characters.
pub open spec fn current_location_view(l: Location) -> Seq<CmdView> {
    text_at(42, 19, "<------------->"@) + text_at(42, 20, "|"@ + centered_text(location_name(l), 13) + "|"@)
        + text_at(42, 21, "<------------->"@)
}

/// The port the ship is at.
pub struct CurrentLocation<'a> {
    pub location: &'a Location,
}

impl<'a> CurrentLocation<'a> {
    /// Appends the port's name; see [current_location_view].
    pub fn emit_into(&self, frame: &mut Commands, Ghost(base): Ghost<Seq<Cmd>>, Ghost(shown): Ghost<Seq<CmdView>>)
        requires
            drawn(old(frame)@, base, shown),
        ensures
            drawn(final(frame)@, base, shown + current_location_view(*self.location)),
    {
        let name = self.location.name();
        let mut middle = String::new();
        crate::text::push_str(&mut middle, "|");
        let centered = center_text(name.as_str(), 13);
        crate::text::push_str(&mut middle, centered.as_str());
        crate::text::push_str(&mut middle, "|");
        let items = vec![
            (42u16, 19u16, crate::text::str_to_string("<------------->")),
            (42u16, 20u16, middle),
            (42u16, 21u16, crate::text::str_to_string("<------------->")),
        ];
        emit_placed(frame, &items, Ghost(base), Ghost(shown));
        let ghost placed = placed_texts(items@);
        assert(placed =~= seq![
            (42u16, 19u16, "<------------->"@),
            (42u16, 20u16, "|"@ + centered_text(location_name(*self.location), 13) + "|"@),
            (42u16, 21u16, "<------------->"@),
        ]);
        assert(placed.drop_last().drop_last().drop_last() =~= Seq::<(u16, u16, Seq<char>)>::empty());
        assert(placed.drop_last().drop_last() =~= seq![(42u16, 19u16, "<------------->"@)]);
        assert(placed.drop_last() =~= seq![
            (42u16, 19u16, "<------------->"@),
            (42u16, 20u16, "|"@ + centered_text(location_name(*self.location), 13) + "|"@),
        ]);
        assert(placed_view(placed) =~= current_location_view(*self.location)) by {
            reveal_with_fuel(placed_view, 4);
            assert(Seq::<CmdView>::empty() + text_at(42, 19, "<------------->"@) =~= text_at(42, 19, "<------------->"@));
        }
    }
}

impl<'a> Component for CurrentLocation<'a> {
    open spec fn can_render(&self) -> bool {
        true
    }

    open spec fn draws(&self, cmds: Seq<Cmd>) -> bool {
        cmds_view(cmds) == current_location_view(*self.location)
    }

    fn render(&self, frame: &mut Commands) -> (r: Result<(), String>)
        ensures
            r is Ok,
    {
        let ghost base = frame@;
        proof { lemma_drawn_start(base); }
        self.emit_into(frame, Ghost(base), Ghost(Seq::empty()));
        assert(Seq::<CmdView>::empty() + current_location_view(*self.location) =~= current_location_view(
            *self.location,
        ));
        Ok(())
    }
}


/// The home port: its drawing, the goods in the stash, the gold in the bank
/// and the debt (right-aligned in seven characters), and the path leading
/// from it while the ship is there.
pub open spec fn home_base_view(stash: Inventory, bank: u32, debt: u32, at_home: bool) -> Seq<CmdView> {
    art_view(4, 3, home_lines()) + placed_view(inventory_items(stash, 16, 7)) + text_at(
        16,
        14,
        count_text("Bank: "@, bank, 7),
    ) + text_at(16, 15, count_text("Debt: "@, debt, 7)) + if at_home {
        art_view(7, 19, path_lines())
    } else {
        Seq::empty()
    }
}

/// The home port, with what is kept there.
pub struct HomeBase<'a> {
    pub stash: &'a Inventory,
    pub bank: u32,
    pub debt: u32,
    pub location: &'a Location,
    pub home_port: &'a Location,
}

impl<'a> HomeBase<'a> {
    /// Appends the home port; see [home_base_view].
    pub fn emit_into(&self, frame: &mut Commands, Ghost(base): Ghost<Seq<Cmd>>, Ghost(shown): Ghost<Seq<CmdView>>)
        requires
            drawn(old(frame)@, base, shown),
        ensures
            drawn(
                final(frame)@,
                base,
                shown + home_base_view(*self.stash, self.bank, self.debt, *self.location == *self.home_port),
            ),
    {
        let home = [
            HOME_0, HOME_1, HOME_2, HOME_3, HOME_4, HOME_5, HOME_6, HOME_7,
            HOME_8, HOME_9, HOME_10, HOME_11, HOME_12, HOME_13, HOME_14, HOME_15,
        ];
        assert(home@.map_values(|l: &'static str| l@) =~= home_lines());
        emit_art(frame, 4, 3, &home, Ghost(base), Ghost(shown));
        let ghost s1 = shown + art_view(4, 3, home_lines());
        InventoryList(self.stash, 16, 7).emit_into(frame, Ghost(base), Ghost(s1));
        let ghost s2 = s1 + placed_view(inventory_items(*self.stash, 16, 7));
        crate::screens::emit_text_at(frame, 16, 14, crate::screens::count_string("Bank: ", self.bank, 7), Ghost(base), Ghost(s2));
        let ghost s3 = s2 + text_at(16, 14, count_text("Bank: "@, self.bank, 7));
        crate::screens::emit_text_at(frame, 16, 15, crate::screens::count_string("Debt: ", self.debt, 7), Ghost(base), Ghost(s3));
        let ghost s4 = s3 + text_at(16, 15, count_text("Debt: "@, self.debt, 7));
        let at_home = *self.location == *self.home_port;
        if at_home {
            let path = [PATH_CONTINUATION_0, PATH_CONTINUATION_1];
            assert(path@.map_values(|l: &'static str| l@) =~= path_lines());
            emit_art(frame, 7, 19, &path, Ghost(base), Ghost(s4));
        } else {
            assert(s4 + Seq::<CmdView>::empty() =~= s4);
        }
        assert(s4 + (if at_home { art_view(7, 19, path_lines()) } else { Seq::empty() }) =~= shown + home_base_view(
            *self.stash,
            self.bank,
            self.debt,
            at_home,
        ));
    }
}

impl<'a> Component for HomeBase<'a> {
    open spec fn can_render(&self) -> bool {
        true
    }

    open spec fn draws(&self, cmds: Seq<Cmd>) -> bool {
        cmds_view(cmds) == home_base_view(*self.stash, self.bank, self.debt, *self.location == *self.home_port)
    }

    fn render(&self, frame: &mut Commands) -> (r: Result<(), String>)
        ensures
            r is Ok,
    {
        let ghost base = frame@;
        let ghost v = home_base_view(*self.stash, self.bank, self.debt, *self.location == *self.home_port);
        proof { lemma_drawn_start(base); }
        self.emit_into(frame, Ghost(base), Ghost(Seq::empty()));
        assert(Seq::<CmdView>::empty() + v =~= v);
        Ok(())
    }
}

/// What the ship carries and its state, written on its hull: the goods
/// (amounts in four characters), the gold (seven), the size of the hold
/// (four) and the number of cannons.
pub open spec fn ship_items(inv: Inventory, gold: u32, hold_size: u32, cannons: u8) -> Seq<(u16, u16, Seq<char>)> {
    seq![
        (53u16, 11u16, count_text("Tea: "@, inv.tea, 4)),
        (63u16, 11u16, count_text("Coffee: "@, inv.coffee, 4)),
        (77u16, 11u16, count_text("Sugar: "@, inv.sugar, 4)),
        (49u16, 12u16, count_text("Tobacco: "@, inv.tobacco, 4)),
        (66u16, 12u16, count_text("Rum: "@, inv.rum, 4)),
        (76u16, 12u16, count_text("Cotton: "@, inv.cotton, 4)),
        (51u16, 14u16, count_text("Gold: "@, gold, 7)),
        (65u16, 14u16, count_text("Hold: "@, hold_size, 4)),
        (76u16, 14u16, number_text("Cannons: "@, cannons as nat, ""@)),
    ]
}

/// The ship: its drawing, what it carries, and the dock beside it.
pub open spec fn ship_view(inv: Inventory, gold: u32, hold_size: u32, cannons: u8) -> Seq<CmdView> {
    art_view(39, 3, ship_lines()) + placed_view(ship_items(inv, gold, hold_size, cannons)) + art_view(
        79,
        19,
        seq![DOCK_CONTINUATION_1_0@],
    ) + art_view(77, 20, seq![DOCK_CONTINUATION_2_0@])
}

/// The ship and what it carries.
pub struct Ship<'a> {
    pub inventory: &'a Inventory,
    pub gold: u32,
    pub hold_size: u32,
    pub cannons: u8,
}

impl<'a> Ship<'a> {
    /// Appends the ship; see [ship_view].
    pub fn emit_into(&self, frame: &mut Commands, Ghost(base): Ghost<Seq<Cmd>>, Ghost(shown): Ghost<Seq<CmdView>>)
        requires
            drawn(old(frame)@, base, shown),
        ensures
            drawn(final(frame)@, base, shown + ship_view(*self.inventory, self.gold, self.hold_size, self.cannons)),
    {
        let ship = [
            SHIP_0, SHIP_1, SHIP_2, SHIP_3, SHIP_4, SHIP_5, SHIP_6, SHIP_7,
            SHIP_8, SHIP_9, SHIP_10, SHIP_11, SHIP_12, SHIP_13, SHIP_14, SHIP_15,
        ];
        assert(ship@.map_values(|l: &'static str| l@) =~= ship_lines());
        emit_art(frame, 39, 3, &ship, Ghost(base), Ghost(shown));
        let ghost s1 = shown + art_view(39, 3, ship_lines());
        let inv = self.inventory;
        let items = vec![
            (53u16, 11u16, crate::screens::count_string("Tea: ", inv.tea, 4)),
            (63u16, 11u16, crate::screens::count_string("Coffee: ", inv.coffee, 4)),
            (77u16, 11u16, crate::screens::count_string("Sugar: ", inv.sugar, 4)),
            (49u16, 12u16, crate::screens::count_string("Tobacco: ", inv.tobacco, 4)),
            (66u16, 12u16, crate::screens::count_string("Rum: ", inv.rum, 4)),
            (76u16, 12u16, crate::screens::count_string("Cotton: ", inv.cotton, 4)),
            (51u16, 14u16, crate::screens::count_string("Gold: ", self.gold, 7)),
            (65u16, 14u16, crate::screens::count_string("Hold: ", self.hold_size, 4)),
            (76u16, 14u16, crate::screens::number_string("Cannons: ", self.cannons as u64, "")),
        ];
        assert(placed_texts(items@) =~= ship_items(*self.inventory, self.gold, self.hold_size, self.cannons));
        emit_placed(frame, &items, Ghost(base), Ghost(s1));
        let ghost s2 = s1 + placed_view(ship_items(*self.inventory, self.gold, self.hold_size, self.cannons));
        let dock1 = [DOCK_CONTINUATION_1_0];
        assert(dock1@.map_values(|l: &'static str| l@) =~= seq![DOCK_CONTINUATION_1_0@]);
        emit_art(frame, 79, 19, &dock1, Ghost(base), Ghost(s2));
        let ghost s3 = s2 + art_view(79, 19, seq![DOCK_CONTINUATION_1_0@]);
        let dock2 = [DOCK_CONTINUATION_2_0];
        assert(dock2@.map_values(|l: &'static str| l@) =~= seq![DOCK_CONTINUATION_2_0@]);
        emit_art(frame, 77, 20, &dock2, Ghost(base), Ghost(s3));
        assert(s3 + art_view(77, 20, seq![DOCK_CONTINUATION_2_0@]) =~= shown + ship_view(
            *self.inventory,
            self.gold,
            self.hold_size,
            self.cannons,
        ));
    }
}

impl<'a> Component for Ship<'a> {
    open spec fn can_render(&self) -> bool {
        true
    }

    open spec fn draws(&self, cmds: Seq<Cmd>) -> bool {
        cmds_view(cmds) == ship_view(*self.inventory, self.gold, self.hold_size, self.cannons)
    }

    fn render(&self, frame: &mut Commands) -> (r: Result<(), String>)
        ensures
            r is Ok,
    {
        let ghost base = frame@;
        let ghost v = ship_view(*self.inventory, self.gold, self.hold_size, self.cannons);
        proof { lemma_drawn_start(base); }
        self.emit_into(frame, Ghost(base), Ghost(Seq::empty()));
        assert(Seq::<CmdView>::empty() + v =~= v);
        Ok(())
    }
}

/// The screen behind every activity at a port: cleared, the cursor hidden,
/// the border with both inner rules, the date, the home port, the ship, the
/// port's name and its prices.
pub open spec fn inventory_base_view(s: GameState) -> Seq<CmdView> {
    seq![CmdView::ClearScreen, CmdView::HideCursor] + border_view(true, true) + top_center_view(date_text(s.date))
        + home_base_view(s.stash, s.bank, s.debt, s.location == s.location_config.home_port) + ship_view(
        s.inventory,
        s.gold,
        s.hold_size,
        s.cannons,
    ) + current_location_view(s.location) + current_prices_view(s.locations.at(s.location).prices)
}

/// The screen behind every activity at a port.
pub struct ViewingInventoryBase<'a>(pub &'a GameState);

impl<'a> ViewingInventoryBase<'a> {
    /// Appends the screen; see [inventory_base_view].
    #[verifier::spinoff_prover]
    #[verifier::rlimit(40)]
    pub fn emit_into(&self, frame: &mut Commands, Ghost(base): Ghost<Seq<Cmd>>, Ghost(shown): Ghost<Seq<CmdView>>)
        requires
            drawn(old(frame)@, base, shown),
        ensures
            drawn(final(frame)@, base, shown + inventory_base_view(*self.0)),
    {
        let state = self.0;
        emit(frame, Cmd::ClearScreen, Ghost(base), Ghost(shown));
        emit(frame, Cmd::HideCursor, Ghost(base), Ghost(shown.push(CmdView::ClearScreen)));
        let ghost s1 = shown.push(CmdView::ClearScreen).push(CmdView::HideCursor);
        emit_border(frame, true, true, Ghost(base), Ghost(s1));
        let ghost s2 = s1 + border_view(true, true);
        crate::screens::TopCenterFramed(Date(state.date).text()).emit_into(frame, Ghost(base), Ghost(s2));
        let ghost s3 = s2 + top_center_view(date_text(state.date));
        HomeBase {
            stash: &state.stash,
            bank: state.bank,
            debt: state.debt,
            location: &state.location,
            home_port: &state.location_config.home_port,
        }.emit_into(frame, Ghost(base), Ghost(s3));
        let ghost s4 = s3 + home_base_view(state.stash, state.bank, state.debt, state.location == state.location_config.home_port);
        Ship { inventory: &state.inventory, gold: state.gold, hold_size: state.hold_size, cannons: state.cannons }.emit_into(
            frame,
            Ghost(base),
            Ghost(s4),
        );
        let ghost s5 = s4 + ship_view(state.inventory, state.gold, state.hold_size, state.cannons);
        CurrentLocation { location: &state.location }.emit_into(frame, Ghost(base), Ghost(s5));
        let ghost s6 = s5 + current_location_view(state.location);
        let info = state.locations.location_info(&state.location);
        CurrentPrices(&info.prices).emit_into(frame, Ghost(base), Ghost(s6));
        assert(s6 + current_prices_view(info.prices) =~= shown + inventory_base_view(*state));
    }
}

impl<'a> Component for ViewingInventoryBase<'a> {
    open spec fn can_render(&self) -> bool {
        true
    }

    open spec fn draws(&self, cmds: Seq<Cmd>) -> bool {
        cmds_view(cmds) == inventory_base_view(*self.0)
    }

    fn render(&self, frame: &mut Commands) -> (r: Result<(), String>)
        ensures
            r is Ok,
    {
        let ghost base = frame@;
        proof { lemma_drawn_start(base); }
        self.emit_into(frame, Ghost(base), Ghost(Seq::empty()));
        assert(Seq::<CmdView>::empty() + inventory_base_view(*self.0) =~= inventory_base_view(*self.0));
        Ok(())
    }
}

} // verus!
