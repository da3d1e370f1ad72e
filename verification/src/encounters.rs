use vstd::prelude::*;

use crate::commands::{Cmd, Commands, Component};
use crate::components::{cmds_view, drawn, emit, lemma_drawn_start, CmdView};
use crate::events::{PirateEncounterInfo, PirateEncounterState};
use crate::game_state::GameState;
use crate::screens::{border_view, center_text, date_text, emit_border, emit_text_at, top_center_view, Date, TopCenterFramed};
use crate::text::{decimal, push_decimal, push_str};
use crate::title_screens::centered_row;

verus! {

/// The state of a fight: the ship's health, the pirates left, and the cannons.
pub open spec fn status_text(info: PirateEncounterInfo, cannons: u8) -> Seq<char> {
    "Health "@ + decimal(info.health as nat) + ", Pirates "@ + decimal(info.cur_pirates as nat) + ", Cannons "@
        + decimal(cannons as nat) + "."@
}

/// See [status_text].
fn status_string(info: PirateEncounterInfo, cannons: u8) -> (r: String)
    ensures
        r@ == status_text(info, cannons),
{
    let mut r = String::new();
    push_str(&mut r, "Health ");
    push_decimal(&mut r, info.health as u64);
    push_str(&mut r, ", Pirates ");
    push_decimal(&mut r, info.cur_pirates as u64);
    push_str(&mut r, ", Cannons ");
    push_decimal(&mut r, cannons as u64);
    push_str(&mut r, ".");
    r
}

/// The line that asks for a key before going on.
pub open spec fn continue_text() -> Seq<char> {
    "(press any key to continue)"@
}

/// What is said at a step of an encounter: a headline (row 8), a line under
/// it (row 12) where there is one, and the line asking for a key or a choice
/// (row 15 when the encounter starts or asks for a choice, row 16 otherwise).
pub open spec fn encounter_lines(st: PirateEncounterState, cannons: u8) -> Seq<(u16, Seq<char>)> {
    match st {
        PirateEncounterState::Initial => seq![
            (8u16, "Pirates have found you on the open seas!"@),
            (15u16, "(press any key)"@),
        ],
        PirateEncounterState::Prompt { info } => seq![
            (8u16, status_text(info, cannons)),
            (15u16, "Will you (r)un or (f)ight ?"@),
        ],
        PirateEncounterState::AttackResult { info, did_kill_a_pirate } => seq![
            (8u16, status_text(info, cannons)),
            (12u16, if did_kill_a_pirate {
                "You fire your cannons at the pirates, and you sink one of them!"@
            } else {
                "You fire your cannons at the pirates, but you only hit water!"@
            }),
            (16u16, continue_text()),
        ],
        PirateEncounterState::RunSuccess => seq![
            (8u16, "You've successfully evaded the pirates!"@),
            (16u16, continue_text()),
        ],
        PirateEncounterState::RunFailure { info } => seq![
            (8u16, status_text(info, cannons)),
            (12u16, "The pirates manouver to cut off your escape!"@),
            (16u16, continue_text()),
        ],
        PirateEncounterState::PiratesAttack { info, damage_this_attack } => seq![
            (8u16, status_text(info, cannons)),
            (12u16, "The pirates fire their cannons at you, doing "@ + decimal(damage_this_attack as nat) + " damage!"@),
            (16u16, continue_text()),
        ],
        PirateEncounterState::Destroyed => seq![
            (8u16, "The pirates have conquered you!"@),
            (12u16, "They get away with half your gold and all of your goods!"@),
            (16u16, continue_text()),
        ],
        PirateEncounterState::Victory { gold_recovered } => seq![
            (8u16, "You have sank all of the pirates!"@),
            (12u16, "You recover "@ + decimal(gold_recovered as nat) + " gold from the wreckage!"@),
            (16u16, continue_text()),
        ],
    }
}

/// Lines centered between the posts of the border, each on its row.
pub open spec fn centered_rows(lines: Seq<(u16, Seq<char>)>) -> Seq<CmdView>
    decreases lines.len(),
{
    if lines.len() == 0 {
        Seq::empty()
    } else {
        centered_rows(lines.drop_last()) + centered_row(lines.last().1, lines.last().0)
    }
}

/// A step of a pirate encounter: cleared, the cursor hidden, the border with
/// the rule under the date, the date, and what is said at that step.
pub open spec fn encounter_view(st: PirateEncounterState, cannons: u8, date: (u16, u8)) -> Seq<CmdView> {
    seq![CmdView::ClearScreen, CmdView::HideCursor] + border_view(true, false) + top_center_view(date_text(date))
        + centered_rows(encounter_lines(st, cannons))
}

/// The lines of [encounter_lines], as strings.
fn encounter_strings(st: PirateEncounterState, cannons: u8) -> (r: Vec<(u16, String)>)
    ensures
        r@.map_values(|p: (u16, String)| (p.0, p.1@)) == encounter_lines(st, cannons),
{
    let s = crate::text::str_to_string;
    let r = match st {
        PirateEncounterState::Initial => vec![
            (8u16, s("Pirates have found you on the open seas!")),
            (15u16, s("(press any key)")),
        ],
        PirateEncounterState::Prompt { info } => vec![
            (8u16, status_string(info, cannons)),
            (15u16, s("Will you (r)un or (f)ight ?")),
        ],
        PirateEncounterState::AttackResult { info, did_kill_a_pirate } => vec![
            (8u16, status_string(info, cannons)),
            (12u16, if did_kill_a_pirate {
                s("You fire your cannons at the pirates, and you sink one of them!")
            } else {
                s("You fire your cannons at the pirates, but you only hit water!")
            }),
            (16u16, s("(press any key to continue)")),
        ],
        PirateEncounterState::RunSuccess => vec![
            (8u16, s("You've successfully evaded the pirates!")),
            (16u16, s("(press any key to continue)")),
        ],
        PirateEncounterState::RunFailure { info } => vec![
            (8u16, status_string(info, cannons)),
            (12u16, s("The pirates manouver to cut off your escape!")),
            (16u16, s("(press any key to continue)")),
        ],
        PirateEncounterState::PiratesAttack { info, damage_this_attack } => {
            let mut t = String::new();
            push_str(&mut t, "The pirates fire their cannons at you, doing ");
            push_decimal(&mut t, damage_this_attack as u64);
            push_str(&mut t, " damage!");
            vec![
                (8u16, status_string(info, cannons)),
                (12u16, t),
                (16u16, s("(press any key to continue)")),
            ]
        },
        PirateEncounterState::Destroyed => vec![
            (8u16, s("The pirates have conquered you!")),
            (12u16, s("They get away with half your gold and all of your goods!")),
            (16u16, s("(press any key to continue)")),
        ],
        PirateEncounterState::Victory { gold_recovered } => {
            let mut t = String::new();
            push_str(&mut t, "You recover ");
            push_decimal(&mut t, gold_recovered as u64);
            push_str(&mut t, " gold from the wreckage!");
            vec![
                (8u16, s("You have sank all of the pirates!")),
                (12u16, t),
                (16u16, s("(press any key to continue)")),
            ]
        },
    };
    assert(r@.map_values(|p: (u16, String)| (p.0, p.1@)) =~= encounter_lines(st, cannons));
    r
}

/// Appends lines centered between the posts of the border; see [centered_rows].
fn emit_centered_rows(
    frame: &mut Commands,
    lines: &Vec<(u16, String)>,
    Ghost(base): Ghost<Seq<Cmd>>,
    Ghost(shown): Ghost<Seq<CmdView>>,
)
    requires
        drawn(old(frame)@, base, shown),
    ensures
        drawn(final(frame)@, base, shown + centered_rows(lines@.map_values(|p: (u16, String)| (p.0, p.1@)))),
{
    let ghost all = lines@.map_values(|p: (u16, String)| (p.0, p.1@));
    let mut i: usize = 0;
    assert(all.take(0) =~= Seq::<(u16, Seq<char>)>::empty());
    assert(shown + centered_rows(all.take(0)) =~= shown);
    while i < lines.len()
        invariant
            i <= lines@.len(),
            all == lines@.map_values(|p: (u16, String)| (p.0, p.1@)),
            drawn(frame@, base, shown + centered_rows(all.take(i as int))),
        decreases lines@.len() - i,
    {
        let ghost so_far = shown + centered_rows(all.take(i as int));
        let row = lines[i].0;
        let t = center_text(lines[i].1.as_str(), 97);
        emit_text_at(frame, 1, row, t, Ghost(base), Ghost(so_far));
        proof {
            assert(all.take(i + 1).drop_last() =~= all.take(i as int));
            assert(all.take(i + 1).last() == all[i as int]);
            assert(so_far + centered_row(all[i as int].1, row) =~= shown + centered_rows(all.take(i + 1)));
        }
        i = i + 1;
    }
    assert(all.take(lines@.len() as int) =~= all);
}

/// A step of a pirate encounter, with the state of the game.
pub struct PirateEncounter<'a>(pub PirateEncounterState, pub &'a GameState);

impl<'a> PirateEncounter<'a> {
    /// Appends the drawing; see [encounter_view].
    pub fn emit_into(&self, frame: &mut Commands, Ghost(base): Ghost<Seq<Cmd>>, Ghost(shown): Ghost<Seq<CmdView>>)
        requires
            drawn(old(frame)@, base, shown),
        ensures
            drawn(final(frame)@, base, shown + encounter_view(self.0, self.1.cannons, self.1.date)),
    {
        emit(frame, Cmd::ClearScreen, Ghost(base), Ghost(shown));
        emit(frame, Cmd::HideCursor, Ghost(base), Ghost(shown.push(CmdView::ClearScreen)));
        let ghost s1 = shown.push(CmdView::ClearScreen).push(CmdView::HideCursor);
        emit_border(frame, true, false, Ghost(base), Ghost(s1));
        let ghost s2 = s1 + border_view(true, false);
        TopCenterFramed(Date(self.1.date).text()).emit_into(frame, Ghost(base), Ghost(s2));
        let ghost s3 = s2 + top_center_view(date_text(self.1.date));
        let lines = encounter_strings(self.0, self.1.cannons);
        emit_centered_rows(frame, &lines, Ghost(base), Ghost(s3));
        assert(s3 + centered_rows(encounter_lines(self.0, self.1.cannons)) =~= shown + encounter_view(
            self.0,
            self.1.cannons,
            self.1.date,
        ));
    }
}

impl<'a> Component for PirateEncounter<'a> {
    open spec fn can_render(&self) -> bool {
        true
    }

    open spec fn draws(&self, cmds: Seq<Cmd>) -> bool {
        cmds_view(cmds) == encounter_view(self.0, self.1.cannons, self.1.date)
    }

    fn render(&self, frame: &mut Commands) -> (r: Result<(), String>)
        ensures
            r is Ok,
    {
        let ghost base = frame@;
        let ghost v = encounter_view(self.0, self.1.cannons, self.1.date);
        proof { lemma_drawn_start(base); }
        self.emit_into(frame, Ghost(base), Ghost(Seq::empty()));
        assert(Seq::<CmdView>::empty() + v =~= v);
        Ok(())
    }
}

} // verus!
