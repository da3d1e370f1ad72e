use vstd::prelude::*;

use crate::style::{is_plain_style, ContentStyle, StyledContent};
use crate::text::{char_to_string, str_to_string};

verus! {

/// Something that can be printed: plain text, one character, or styled text.
#[derive(Debug, Clone)]
pub enum Printable {
    String(String),
    Char(char),
    StyledContent(StyledContent<String>),
}

/// The characters that printing `p` puts on the screen.
pub open spec fn printable_text(p: Printable) -> Seq<char> {
    match p {
        Printable::String(s) => s@,
        Printable::Char(c) => seq![c],
        Printable::StyledContent(sc) => sc.content@,
    }
}

impl Printable {
    /// The raw text, without its style.
    pub fn raw_text(&self) -> (r: String)
        ensures
            r@ == printable_text(*self),
    {
        match self {
            Printable::String(s) => s.clone(),
            Printable::Char(c) => char_to_string(*c),
            Printable::StyledContent(styled_content) => styled_content.content().clone(),
        }
    }
}

/// A drawing command.
#[derive(Debug, Clone)]
pub enum Cmd {
    ClearScreen,
    /// Column (x), then row (y).
    MoveTo(u16, u16),
    MoveUp(u16),
    MoveDown(u16),
    MoveLeft(u16),
    MoveRight(u16),
    HideCursor,
    ShowCursor,
    /// Number of lines.
    MoveToNextLine(u16),
    Print(Printable),
}

/// A sequence of drawing commands.
pub struct Frame {
    pub(crate) commands: Vec<Cmd>,
}

/// The command list under the name the terminal crate gives it.
pub type Commands = Frame;

impl View for Frame {
    type V = Seq<Cmd>;

    closed spec fn view(&self) -> Seq<Cmd> {
        self.commands@
    }
}

/// Something that draws itself by appending commands to a frame.
pub trait Component {
    /// Whether this component can be drawn.
    spec fn can_render(&self) -> bool;

    /// Whether `cmds` are the commands that drawing this component appends.
    spec fn draws(&self, cmds: Seq<Cmd>) -> bool;

    /// Whether drawing this component always succeeds.
    open spec fn never_fails(&self) -> bool {
        true
    }

    /// Appends the commands that draw this component.
    fn render(&self, frame: &mut Frame) -> (r: Result<(), String>)
        requires
            self.can_render(),
        ensures
            self.never_fails() ==> r is Ok,
            r is Ok ==> final(frame)@.take(old(frame)@.len() as int) == old(frame)@,
            r is Ok ==> final(frame)@.len() >= old(frame)@.len(),
            r is Ok ==> self.draws(final(frame)@.skip(old(frame)@.len() as int)),
    ;
}

impl Frame {
    /// The empty frame.
    pub fn new() -> (r: Frame)
        ensures
            r@ == Seq::<Cmd>::empty(),
    {
        Frame { commands: Vec::new() }
    }

    /// The commands, in order.
    pub fn commands(&self) -> (r: &Vec<Cmd>)
        ensures
            r@ == self@,
    {
        &self.commands
    }

    /// Appends one command.
    pub fn push(&mut self, cmd: Cmd)
        ensures
            final(self)@ == old(self)@.push(cmd),
    {
        self.commands.push(cmd);
    }

    /// Draws a component into this frame.
    pub fn render<C: Component>(&mut self, component: &C) -> (r: Result<(), String>)
        requires
            component.can_render(),
        ensures
            component.never_fails() ==> r is Ok,
            r is Ok ==> final(self)@.take(old(self)@.len() as int) == old(self)@,
            r is Ok ==> final(self)@.len() >= old(self)@.len(),
            r is Ok ==> component.draws(final(self)@.skip(old(self)@.len() as int)),
    {
        component.render(self)
    }
}

/// Appending one command keeps the old ones and adds exactly that one.
proof fn lemma_push_one(old_cmds: Seq<Cmd>, cmd: Cmd)
    ensures
        old_cmds.push(cmd).len() == old_cmds.len() + 1,
        old_cmds.push(cmd).take(old_cmds.len() as int) == old_cmds,
        old_cmds.push(cmd).skip(old_cmds.len() as int) == seq![cmd],
{
    assert(old_cmds.push(cmd).take(old_cmds.len() as int) =~= old_cmds);
    assert(old_cmds.push(cmd).skip(old_cmds.len() as int) =~= seq![cmd]);
}

/// Moves the cursor up.
#[derive(Debug, Clone, Copy, PartialEq, Eq)]
pub struct MoveUp(pub u16);

impl Component for MoveUp {
    open spec fn can_render(&self) -> bool {
        true
    }

    open spec fn draws(&self, cmds: Seq<Cmd>) -> bool {
        cmds == seq![Cmd::MoveUp(self.0)]
    }

    fn render(&self, frame: &mut Frame) -> (r: Result<(), String>)
        ensures
            r is Ok,
    {
        proof { lemma_push_one(frame@, Cmd::MoveUp(self.0)); }
        frame.push(Cmd::MoveUp(self.0));
        Ok(())
    }
}

/// Moves the cursor down.
#[derive(Debug, Clone, Copy, PartialEq, Eq)]
pub struct MoveDown(pub u16);

impl Component for MoveDown {
    open spec fn can_render(&self) -> bool {
        true
    }

    open spec fn draws(&self, cmds: Seq<Cmd>) -> bool {
        cmds == seq![Cmd::MoveDown(self.0)]
    }

    fn render(&self, frame: &mut Frame) -> (r: Result<(), String>)
        ensures
            r is Ok,
    {
        proof { lemma_push_one(frame@, Cmd::MoveDown(self.0)); }
        frame.push(Cmd::MoveDown(self.0));
        Ok(())
    }
}

/// Moves the cursor left.
#[derive(Debug, Clone, Copy, PartialEq, Eq)]
pub struct MoveLeft(pub u16);

impl Component for MoveLeft {
    open spec fn can_render(&self) -> bool {
        true
    }

    open spec fn draws(&self, cmds: Seq<Cmd>) -> bool {
        cmds == seq![Cmd::MoveLeft(self.0)]
    }

    fn render(&self, frame: &mut Frame) -> (r: Result<(), String>)
        ensures
            r is Ok,
    {
        proof { lemma_push_one(frame@, Cmd::MoveLeft(self.0)); }
        frame.push(Cmd::MoveLeft(self.0));
        Ok(())
    }
}

/// Moves the cursor right.
#[derive(Debug, Clone, Copy, PartialEq, Eq)]
pub struct MoveRight(pub u16);

impl Component for MoveRight {
    open spec fn can_render(&self) -> bool {
        true
    }

    open spec fn draws(&self, cmds: Seq<Cmd>) -> bool {
        cmds == seq![Cmd::MoveRight(self.0)]
    }

    fn render(&self, frame: &mut Frame) -> (r: Result<(), String>)
        ensures
            r is Ok,
    {
        proof { lemma_push_one(frame@, Cmd::MoveRight(self.0)); }
        frame.push(Cmd::MoveRight(self.0));
        Ok(())
    }
}

/// Hides the cursor.
#[derive(Debug, Clone, Copy, PartialEq, Eq)]
pub struct Hide;

impl Component for Hide {
    open spec fn can_render(&self) -> bool {
        true
    }

    open spec fn draws(&self, cmds: Seq<Cmd>) -> bool {
        cmds == seq![Cmd::HideCursor]
    }

    fn render(&self, frame: &mut Frame) -> (r: Result<(), String>)
        ensures
            r is Ok,
    {
        proof { lemma_push_one(frame@, Cmd::HideCursor); }
        frame.push(Cmd::HideCursor);
        Ok(())
    }
}

/// Shows the cursor.
#[derive(Debug, Clone, Copy, PartialEq, Eq)]
pub struct Show;

impl Component for Show {
    open spec fn can_render(&self) -> bool {
        true
    }

    open spec fn draws(&self, cmds: Seq<Cmd>) -> bool {
        cmds == seq![Cmd::ShowCursor]
    }

    fn render(&self, frame: &mut Frame) -> (r: Result<(), String>)
        ensures
            r is Ok,
    {
        proof { lemma_push_one(frame@, Cmd::ShowCursor); }
        frame.push(Cmd::ShowCursor);
        Ok(())
    }
}

/// Moves the cursor down by a number of lines, to the first column.
#[derive(Debug, Clone, Copy, PartialEq, Eq)]
pub struct MoveToNextLine(pub u16);

impl Component for MoveToNextLine {
    open spec fn can_render(&self) -> bool {
        true
    }

    open spec fn draws(&self, cmds: Seq<Cmd>) -> bool {
        cmds == seq![Cmd::MoveToNextLine(self.0)]
    }

    fn render(&self, frame: &mut Frame) -> (r: Result<(), String>)
        ensures
            r is Ok,
    {
        proof { lemma_push_one(frame@, Cmd::MoveToNextLine(self.0)); }
        frame.push(Cmd::MoveToNextLine(self.0));
        Ok(())
    }
}

/// Moves the cursor to a column (x) and a row (y).
#[derive(Debug, Clone, Copy, PartialEq, Eq)]
pub struct MoveTo(pub u16, pub u16);

impl Component for MoveTo {
    open spec fn can_render(&self) -> bool {
        true
    }

    open spec fn draws(&self, cmds: Seq<Cmd>) -> bool {
        cmds == seq![Cmd::MoveTo(self.0, self.1)]
    }

    fn render(&self, frame: &mut Frame) -> (r: Result<(), String>)
        ensures
            r is Ok,
    {
        proof { lemma_push_one(frame@, Cmd::MoveTo(self.0, self.1)); }
        frame.push(Cmd::MoveTo(self.0, self.1));
        Ok(())
    }
}

/// What part of the screen to clear.
#[derive(Copy, Clone, Debug, PartialEq, Eq, Hash)]
pub enum ClearType {
    All,
    Purge,
    FromCursorDown,
    FromCursorUp,
    CurrentLine,
    UntilNewLine,
}

/// Clears the screen. Only the whole screen ([ClearType::All]) can be cleared.
#[derive(Debug, Clone, Copy, PartialEq, Eq)]
pub struct Clear(pub ClearType);

impl Component for Clear {
    open spec fn can_render(&self) -> bool {
        self.0 == ClearType::All
    }

    open spec fn draws(&self, cmds: Seq<Cmd>) -> bool {
        cmds == seq![Cmd::ClearScreen]
    }

    fn render(&self, frame: &mut Frame) -> (r: Result<(), String>)
        ensures
            r is Ok,
    {
        proof { lemma_push_one(frame@, Cmd::ClearScreen); }
        frame.push(Cmd::ClearScreen);
        Ok(())
    }
}

/// Prints something at the cursor.
pub struct Print<T>(pub T);

impl<'a> Component for Print<&'a str> {
    open spec fn can_render(&self) -> bool {
        true
    }

    open spec fn draws(&self, cmds: Seq<Cmd>) -> bool {
        &&& cmds.len() == 1
        &&& cmds[0] matches Cmd::Print(Printable::String(s)) && s@ == self.0@
    }

    fn render(&self, frame: &mut Frame) -> (r: Result<(), String>)
        ensures
            r is Ok,
    {
        let cmd = Cmd::Print(Printable::String(str_to_string(self.0)));
        proof { lemma_push_one(frame@, cmd); }
        frame.push(cmd);
        Ok(())
    }
}

impl Component for Print<String> {
    open spec fn can_render(&self) -> bool {
        true
    }

    open spec fn draws(&self, cmds: Seq<Cmd>) -> bool {
        &&& cmds.len() == 1
        &&& cmds[0] matches Cmd::Print(Printable::String(s)) && s@ == self.0@
    }

    fn render(&self, frame: &mut Frame) -> (r: Result<(), String>)
        ensures
            r is Ok,
    {
        let cmd = Cmd::Print(Printable::String(self.0.clone()));
        proof { lemma_push_one(frame@, cmd); }
        frame.push(cmd);
        Ok(())
    }
}

impl Component for Print<char> {
    open spec fn can_render(&self) -> bool {
        true
    }

    open spec fn draws(&self, cmds: Seq<Cmd>) -> bool {
        cmds == seq![Cmd::Print(Printable::Char(self.0))]
    }

    fn render(&self, frame: &mut Frame) -> (r: Result<(), String>)
        ensures
            r is Ok,
    {
        let cmd = Cmd::Print(Printable::Char(self.0));
        proof { lemma_push_one(frame@, cmd); }
        frame.push(cmd);
        Ok(())
    }
}

impl Component for Print<StyledContent<String>> {
    open spec fn can_render(&self) -> bool {
        true
    }

    open spec fn draws(&self, cmds: Seq<Cmd>) -> bool {
        &&& cmds.len() == 1
        &&& cmds[0] matches Cmd::Print(Printable::StyledContent(sc))
            && sc.content@ == self.0.content@ && sc.style == self.0.style
    }

    fn render(&self, frame: &mut Frame) -> (r: Result<(), String>)
        ensures
            r is Ok,
    {
        let sc = StyledContent { style: self.0.style, content: self.0.content.clone() };
        let cmd = Cmd::Print(Printable::StyledContent(sc));
        proof { lemma_push_one(frame@, cmd); }
        frame.push(cmd);
        Ok(())
    }
}

impl<'a> Component for Print<StyledContent<&'a str>> {
    open spec fn can_render(&self) -> bool {
        true
    }

    open spec fn draws(&self, cmds: Seq<Cmd>) -> bool {
        &&& cmds.len() == 1
        &&& cmds[0] matches Cmd::Print(Printable::StyledContent(sc))
            && sc.content@ == self.0.content@ && sc.style == self.0.style
    }

    fn render(&self, frame: &mut Frame) -> (r: Result<(), String>)
        ensures
            r is Ok,
    {
        let sc = StyledContent { style: self.0.style, content: str_to_string(self.0.content) };
        let cmd = Cmd::Print(Printable::StyledContent(sc));
        proof { lemma_push_one(frame@, cmd); }
        frame.push(cmd);
        Ok(())
    }
}

} // verus!
