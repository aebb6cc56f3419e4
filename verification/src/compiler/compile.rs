//! From source text to a program, line by line.

use vstd::prelude::*;

use crate::code::commands::{
    commands, AnyCommand, AnyFactory, CommandFactory, CommandValue, Instruction,
};
use crate::code::program::{Program, ProgramBuilder};
use crate::code::semantics::ProgramModel;
use crate::compiler::grammar::{
    command_parts, command_value_of, comment_of, define_of, is_commented_code, is_label, line_end,
    new_label_of, scan_command_parts, scan_command_value, scan_comment, scan_define, scan_label,
    scan_line, scan_new_label,
};
use crate::compiler::scan::{to_chars, to_string, trim, trim_bounds};

verus! {

/// Why source text is no program.
#[derive(Debug, PartialEq)]
pub enum ParseError {
    /// The line, without the white space around it, is nothing that a
    /// program may hold.
    IllegalLine(String),
}

/// What one line of source text says.
#[derive(Debug)]
pub enum ParsedLine {
    Comment(u32),
    Label(String),
    Command(AnyCommand),
    Empty,
    CommentedCode,
    Define(DefineInstruction),
}

/// What a line that begins with `DEFINE` defines, with its number.
#[allow(non_camel_case_types)]
#[derive(Debug, Clone, Copy, PartialEq, Eq, Structural)]
pub enum DefineInstruction {
    COMMENT(u32),
    LABEL(u32),
}

/// A [ParsedLine] as a mathematical value.
pub enum Line {
    Comment(u32),
    Label(Seq<char>),
    Command(Instruction),
    Empty,
    CommentedCode,
    Define(DefineInstruction),
}

impl View for ParsedLine {
    type V = Line;

    open spec fn view(&self) -> Line {
        match self {
            ParsedLine::Comment(id) => Line::Comment(*id),
            ParsedLine::Label(label) => Line::Label(label@),
            ParsedLine::Command(command) => Line::Command(command@),
            ParsedLine::Empty => Line::Empty,
            ParsedLine::CommentedCode => Line::CommentedCode,
            ParsedLine::Define(define) => Line::Define(*define),
        }
    }
}

/// The instruction that the first factory makes which has this keyword and
/// accepts these arguments.
pub open spec fn first_created(factories: Seq<AnyFactory>, keyword: Seq<char>, args: Seq<char>) -> Option<
    Instruction,
>
    decreases factories.len(),
{
    if factories.len() == 0 {
        None
    } else if factories[0].keyword() == keyword && factories[0].parse(args) is Some {
        factories[0].parse(args)
    } else {
        first_created(factories.drop_first(), keyword, args)
    }
}

/// The instruction that a line stands for.
pub open spec fn command_of(factories: Seq<AnyFactory>, t: Seq<char>) -> Option<Instruction> {
    match command_parts(t) {
        Some((keyword, args)) => first_created(factories, keyword, args),
        None => None,
    }
}

/// What a line without white space around it says. The shapes are tried in
/// this order: nothing at all, code that was commented out, a comment, a
/// definition, the declaration of a label, an instruction.
pub open spec fn trimmed_line_of(factories: Seq<AnyFactory>, t: Seq<char>) -> Option<Line> {
    if t.len() == 0 {
        Some(Line::Empty)
    } else if is_commented_code(t) {
        Some(Line::CommentedCode)
    } else if comment_of(t) is Some {
        Some(Line::Comment(comment_of(t)->0))
    } else if define_of(t) is Some {
        Some(Line::Define(define_of(t)->0))
    } else if new_label_of(t) is Some {
        Some(Line::Label(new_label_of(t)->0))
    } else if command_of(factories, t) is Some {
        Some(Line::Command(command_of(factories, t)->0))
    } else {
        None
    }
}

/// What a line says; where it says nothing that a program may hold, the
/// line without the white space around it.
pub open spec fn line_of(factories: Seq<AnyFactory>, line: Seq<char>) -> Result<Line, Seq<char>> {
    match trimmed_line_of(factories, trim(line)) {
        Some(parsed) => Ok(parsed),
        None => Err(trim(line)),
    }
}

/// The program with what a line says added to it: a label is declared at the
/// end of the program, an instruction becomes its last, and every other line
/// leaves it as it is.
pub open spec fn with_line(program: ProgramModel, line: Line) -> ProgramModel {
    match line {
        Line::Label(label) => program.with_label(label),
        Line::Command(command) => program.with_command(command),
        _ => program,
    }
}

/// The program that `text` adds to `program`, line by line, where a line ends
/// at a line feed or at the end of the text; or the first line that says
/// nothing that a program may hold.
pub open spec fn compile_from(factories: Seq<AnyFactory>, text: Seq<char>, program: ProgramModel) -> Result<
    ProgramModel,
    Seq<char>,
>
    decreases text.len(),
{
    let end = line_end(text) as int;
    match line_of(factories, text.take(end)) {
        Err(illegal) => Err(illegal),
        Ok(line) => if end >= text.len() {
            Ok(with_line(program, line))
        } else {
            compile_from(factories, text.skip(end + 1), with_line(program, line))
        },
    }
}

/// The program that source text stands for.
pub open spec fn compiled(factories: Seq<AnyFactory>, text: Seq<char>) -> Result<
    ProgramModel,
    Seq<char>,
> {
    compile_from(factories, text, ProgramModel::empty())
}

/// Turns source text into programs.
pub struct Compiler {
    /// The factories that the compiler asks for an instruction, in this order.
    pub commands: Vec<AnyFactory>,
}

impl Default for Compiler {
    fn default() -> (compiler: Self)
        ensures
            compiler.commands@ == seq![
                AnyFactory::Add,
                AnyFactory::BumpDown,
                AnyFactory::BumpUp,
                AnyFactory::CopyFrom,
                AnyFactory::CopyTo,
                AnyFactory::Inbox,
                AnyFactory::Jump,
                AnyFactory::JumpNegative,
                AnyFactory::JumpZero,
                AnyFactory::Outbox,
                AnyFactory::Sub,
            ],
    {
        Self { commands: commands() }
    }
}

impl Compiler {
    /// Compile
    ///
    /// Compile code consisting of instructions separated by new lines.
    /// Returns:
    /// - [Ok(Program)] if code was successfully parsed
    /// - [Err(ParseError)] else
    pub fn compile(&self, code: &str) -> (r: Result<Program, ParseError>)
        ensures
            match compiled(self.commands@, code@) {
                Ok(model) => r matches Ok(program) && program@ == model,
                Err(illegal) => r matches Err(ParseError::IllegalLine(line)) && line@ == illegal,
            },
            r matches Ok(program) ==> program@.tidy(),
    {
        let chars = to_chars(code);
        let mut builder = ProgramBuilder::new();
        let mut start: usize = 0;
        assert(chars@.skip(0) == chars@);
        loop
            invariant
                start <= chars.len(),
                compile_from(self.commands@, chars@.skip(start as int), builder@) == compiled(
                    self.commands@,
                    code@,
                ),
                builder@.tidy(),
            decreases chars.len() - start,
        {
            let end = scan_line(chars.as_slice(), start);
            assert(chars@.skip(start as int).take(end - start) == chars@.subrange(
                start as int,
                end as int,
            ));
            match self.scan_instruction(chars.as_slice(), start, end)? {
                ParsedLine::Label(label) => builder.add_label_ref(label),
                ParsedLine::Command(command) => builder.add_command_ref(command),
                _ => {},
            }
            if end >= chars.len() {
                return Ok(builder.build());
            }
            assert(chars@.skip(start as int).skip(end - start + 1) == chars@.skip(end + 1));
            start = end + 1;
        }
    }

    /// What the line `chars[start..end]` says.
    pub(crate) fn scan_instruction(&self, chars: &[char], start: usize, end: usize) -> (r: Result<
        ParsedLine,
        ParseError,
    >)
        requires
            start <= end <= chars.len(),
        ensures
            match line_of(self.commands@, chars@.subrange(start as int, end as int)) {
                Ok(line) => r matches Ok(parsed) && parsed@ == line,
                Err(illegal) => r matches Err(ParseError::IllegalLine(text)) && text@ == illegal,
            },
    {
        let (from, to) = trim_bounds(chars, start, end);
        if from == to {
            return Ok(ParsedLine::Empty);
        }
        if to - from >= 2 && chars[from] == '-' && chars[from + 1] == '-' && chars[to - 2] == '-'
            && chars[to - 1] == '-' {
            return Ok(ParsedLine::CommentedCode);
        }
        if let Some(id) = scan_comment(chars, from, to) {
            return Ok(ParsedLine::Comment(id));
        }
        if let Some(define_instruction) = scan_define(chars, from, to) {
            return Ok(ParsedLine::Define(define_instruction));
        }
        if let Some(label) = scan_new_label(chars, from, to) {
            return Ok(ParsedLine::Label(label));
        }
        if let Some(command) = self.scan_command(chars, from, to) {
            return Ok(ParsedLine::Command(command));
        }
        Err(ParseError::IllegalLine(to_string(chars, from, to)))
    }

    /// The instruction that `chars[start..end]` stands for.
    pub(crate) fn scan_command(&self, chars: &[char], start: usize, end: usize) -> (r: Option<AnyCommand>)
        requires
            start <= end <= chars.len(),
        ensures
            match r {
                Some(command) => command_of(self.commands@, chars@.subrange(start as int, end as int))
                    == Some(command@),
                None => command_of(self.commands@, chars@.subrange(start as int, end as int)) is None,
            },
    {
        let (stop, from) = match scan_command_parts(chars, start, end) {
            Some(bounds) => bounds,
            None => return None,
        };
        let keyword = to_string(chars, start, stop);
        let args = to_string(chars, from, end);
        let ghost factories = self.commands@;
        let mut i: usize = 0;
        assert(factories.skip(0) == factories);
        while i < self.commands.len()
            invariant
                i <= self.commands.len(),
                factories == self.commands@,
                start <= end <= chars.len(),
                command_parts(chars@.subrange(start as int, end as int)) == Some((keyword@, args@)),
                first_created(factories, keyword@, args@) == first_created(
                    factories.skip(i as int),
                    keyword@,
                    args@,
                ),
            decreases self.commands.len() - i,
        {
            let factory = &self.commands[i];
            assert(factories.skip(i as int).drop_first() == factories.skip(i + 1));
            if factory.command().eq(keyword.as_str()) {
                if let Some(command) = factory.create(args.as_str()) {
                    return Some(command);
                }
            }
            i += 1;
        }
        None
    }

    /// What one line of source text says.
    pub fn compile_instruction(&self, instruction: &str) -> (r: Result<ParsedLine, ParseError>)
        ensures
            match line_of(self.commands@, instruction@) {
                Ok(line) => r matches Ok(parsed) && parsed@ == line,
                Err(illegal) => r matches Err(ParseError::IllegalLine(text)) && text@ == illegal,
            },
    {
        let chars = to_chars(instruction);
        assert(chars@.subrange(0, chars.len() as int) == chars@);
        self.scan_instruction(chars.as_slice(), 0, chars.len())
    }

    /// Compile Command
    ///
    /// Tries to compile an instruction as a command. Returns:
    /// - [Some(AnyCommand)] if instruction is a valid command with correct args
    /// - [None] else
    ///
    /// Expects instruction to be trimmed.
    pub fn compile_command(&self, instruction: &str) -> (r: Option<AnyCommand>)
        ensures
            match r {
                Some(command) => command_of(self.commands@, instruction@) == Some(command@),
                None => command_of(self.commands@, instruction@) is None,
            },
    {
        let chars = to_chars(instruction);
        assert(chars@.subrange(0, chars.len() as int) == chars@);
        self.scan_command(chars.as_slice(), 0, chars.len())
    }
}

/// Compile Comment
///
/// Tries to compile an instruction as a comment. Returns:
/// - [Some(u32)] if line starts with <code>COMMENT</code> and has an [u32] arg
/// - [None] else
///
/// Expects instruction to be trimmed.
pub fn compile_comment(instruction: &str) -> (r: Option<u32>)
    ensures
        r == comment_of(instruction@),
{
    let chars = to_chars(instruction);
    assert(chars@.subrange(0, chars.len() as int) == chars@);
    scan_comment(chars.as_slice(), 0, chars.len())
}

/// Compile Define
///
/// Tries to compile a define instruction. Returns:
/// - [Some(DefineInstruction)] if define contains the correct type & index
/// - [None] else
///
/// Expects instruction to be trimmed.
pub fn compile_define(instruction: &str) -> (r: Option<DefineInstruction>)
    ensures
        r == define_of(instruction@),
{
    let chars = to_chars(instruction);
    assert(chars@.subrange(0, chars.len() as int) == chars@);
    scan_define(chars.as_slice(), 0, chars.len())
}

/// Compile New Label
///
/// Tries to compile an instruction as a new label. Returns:
/// - [Some(String)] if instruction consists of lowercase a-z followed by a colon
/// - [None] else
///
/// Expects instruction to be trimmed.
pub fn compile_new_label(instruction: &str) -> (r: Option<String>)
    ensures
        match r {
            Some(label) => new_label_of(instruction@) == Some(label@),
            None => new_label_of(instruction@) is None,
        },
{
    let chars = to_chars(instruction);
    assert(chars@.subrange(0, chars.len() as int) == chars@);
    scan_new_label(chars.as_slice(), 0, chars.len())
}

/// Compile Command Value
///
/// Returns the operand if the input is a number or a number in square
/// brackets, else [None].
pub fn compile_command_value(value: &str) -> (r: Option<CommandValue>)
    ensures
        r == command_value_of(value@),
{
    let chars = to_chars(value);
    assert(chars@.subrange(0, chars.len() as int) == chars@);
    scan_command_value(chars.as_slice(), 0, chars.len())
}

/// Compile Label
///
/// Returns the label if the input is made of the letters `a` to `z`, else
/// [None].
pub fn compile_label(label: &str) -> (r: Option<String>)
    ensures
        match r {
            Some(name) => is_label(label@) && name@ == label@,
            None => !is_label(label@),
        },
{
    let chars = to_chars(label);
    assert(chars@.subrange(0, chars.len() as int) == chars@);
    if scan_label(chars.as_slice(), 0, chars.len()) {
        Some(to_string(chars.as_slice(), 0, chars.len()))
    } else {
        None
    }
}

} // verus!
