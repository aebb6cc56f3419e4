use hrm::code::commands::{AnyCommand, Command, CommandFactory, CommandValue};
use hrm::compiler::compile::{
    compile_command_value, compile_comment, compile_define, compile_label, compile_new_label,
    Compiler, DefineInstruction, ParseError, ParsedLine,
};
use hrm::compiler::scan::{is_digit_char, is_lower_char, is_space_char, is_upper_char, to_chars};
use regex::Regex;

/// Every string of up to `len` characters of `alphabet`.
fn strings(alphabet: &[char], len: usize) -> Vec<String> {
    let mut all = vec![String::new()];
    let mut last = vec![String::new()];
    for _ in 0..len {
        let mut next = Vec::new();
        for s in &last {
            for c in alphabet {
                let mut longer = s.clone();
                longer.push(*c);
                next.push(longer);
            }
        }
        all.extend(next.iter().cloned());
        last = next;
    }
    all
}

const ALPHABET: [char; 12] = [
    'A', 'z', '7', '0', '[', ']', ' ', '\t', ':', '-', '\n', '\u{a0}',
];

fn number<T: std::str::FromStr>(digits: &str) -> Option<T> {
    digits.parse().ok()
}

#[test]
fn white_space_is_what_the_standard_library_calls_white_space() {
    for code in 0..=0x10FFFF_u32 {
        if let Some(c) = char::from_u32(code) {
            assert_eq!(c.is_whitespace(), is_space_char(c), "{:x}", code);
        }
    }
}

#[test]
fn white_space_is_what_a_pattern_calls_white_space() {
    let space = Regex::new(r"^\s$").unwrap();
    let mut buffer = [0; 4];
    // Every code point of the first planes' beginning, where all white
    // space lies, and one in every few hundred of the rest.
    let codes = (0..=0x3400_u32).chain((0x3400..=0x10FFFF_u32).step_by(257));
    for code in codes {
        if let Some(c) = char::from_u32(code) {
            assert_eq!(
                space.is_match(c.encode_utf8(&mut buffer)),
                is_space_char(c),
                "{:x}",
                code
            );
        }
    }
}

#[test]
fn letters_and_digits_are_those_of_ascii() {
    for code in 0..=0x10FFFF_u32 {
        if let Some(c) = char::from_u32(code) {
            assert_eq!(c.is_ascii_digit(), is_digit_char(c));
            assert_eq!(c.is_ascii_lowercase(), is_lower_char(c));
            assert_eq!(c.is_ascii_uppercase(), is_upper_char(c));
        }
    }
}

#[test]
fn the_characters_of_a_string_are_its_chars() {
    for text in ["", "a", "INBOX", "a\u{e9}\u{4e2d}\u{1f600}b", " \t\n"] {
        assert_eq!(text.chars().collect::<Vec<char>>(), to_chars(text));
    }
}

#[test]
fn an_illegal_line_is_handed_back_character_by_character() {
    let compiler = Compiler::default();
    for (line, illegal) in [
        (" a\u{e9}\u{4e2d}\u{1f600}b\t", "a\u{e9}\u{4e2d}\u{1f600}b"),
        ("\u{2003}\u{1f600}\u{a0}", "\u{1f600}"),
        ("\u{e9}t\u{e9}:", "\u{e9}t\u{e9}:"),
        ("x", "x"),
    ] {
        match compiler.compile_instruction(line) {
            Err(ParseError::IllegalLine(text)) => assert_eq!(illegal, text),
            other => panic!("{:?}", other),
        }
    }
}

#[test]
fn labels_are_what_the_pattern_matches() {
    let label = Regex::new(r"^([a-z]+)$").unwrap();
    for s in strings(&ALPHABET, 4) {
        let expected = label.captures(&s).map(|captures| captures[1].to_string());
        assert_eq!(expected, compile_label(&s), "{:?}", s);
    }
    assert_eq!(None, compile_label("\u{e9}"));
    assert_eq!(None, compile_label("a\u{df}"));
    assert_eq!(
        Some(String::from("abcdefghijklmnopqrstuvwxyz")),
        compile_label("abcdefghijklmnopqrstuvwxyz")
    );
}

#[test]
fn new_labels_are_what_the_pattern_matches() {
    let new_label = Regex::new(r"^([a-z]+):$").unwrap();
    for s in strings(&ALPHABET, 4) {
        let expected = new_label
            .captures(&s)
            .map(|captures| captures[1].to_string());
        assert_eq!(expected, compile_new_label(&s), "{:?}", s);
    }
    assert_eq!(None, compile_new_label(":"));
    assert_eq!(None, compile_new_label("a::"));
}

fn command_value(pattern: &Regex, s: &str) -> Option<CommandValue> {
    let captures = pattern.captures(s)?;
    let value = &captures[1];
    if value.starts_with('[') {
        number(&value[1..(value.len() - 1)]).map(CommandValue::Index)
    } else {
        number(value).map(CommandValue::Value)
    }
}

#[test]
fn command_values_are_what_the_pattern_matches() {
    let pattern = Regex::new(r"^(\[\d+]|\d+)$").unwrap();
    for s in strings(&ALPHABET, 4) {
        assert_eq!(
            command_value(&pattern, &s),
            compile_command_value(&s),
            "{:?}",
            s
        );
    }
    for s in [
        "0",
        "007",
        "[007]",
        "18446744073709551615",
        "[18446744073709551615]",
        "18446744073709551616",
        "[18446744073709551616]",
        "99999999999999999999999999999999999999999",
        "4294967295",
        "4294967296",
        "+1",
        "-1",
        "[[1]]",
        "[1",
        "1]",
        "\u{663}",
        "[\u{663}]",
        "1\u{663}",
    ] {
        assert_eq!(
            command_value(&pattern, s),
            compile_command_value(s),
            "{:?}",
            s
        );
    }
    assert_eq!(Some(CommandValue::Value(7)), compile_command_value("007"));
    assert_eq!(
        Some(CommandValue::Index(usize::MAX)),
        compile_command_value(&format!("[{}]", usize::MAX))
    );
    assert_eq!(
        Some(CommandValue::Value(usize::MAX)),
        compile_command_value(&format!("{}", usize::MAX))
    );
    assert_eq!(None, compile_command_value(&format!("{}0", usize::MAX)));
    assert_eq!(None, compile_command_value("\u{663}"));
}

fn comment(pattern: &Regex, s: &str) -> Option<u32> {
    number(&pattern.captures(s)?[1])
}

fn define(pattern: &Regex, s: &str) -> Option<DefineInstruction> {
    let captures = pattern.captures(s)?;
    let index = number(&captures[2])?;
    match &captures[1] {
        "COMMENT" => Some(DefineInstruction::COMMENT(index)),
        _ => Some(DefineInstruction::LABEL(index)),
    }
}

#[test]
fn comments_and_definitions_are_what_the_patterns_match() {
    let comment_pattern = Regex::new(r"^COMMENT\s+(\d+)$").unwrap();
    let define_pattern = Regex::new(r"^DEFINE\s+(COMMENT|LABEL)\s+(\d+)$").unwrap();
    let heads = [
        "",
        "COMMENT",
        "COMMENT ",
        "COMMENT\t \u{a0}",
        "COMMEN ",
        "COMMENTS ",
        "DEFINE",
        "DEFINE ",
        "DEFINE COMMENT",
        "DEFINE COMMENT ",
        "DEFINE\tCOMMENT\t",
        "DEFINE LABEL ",
        "DEFINE  LABEL  ",
        "DEFINE LABELS ",
        "DEFINE COMMENT LABEL ",
        "DEFINELABEL ",
        "DEFINE COMMENTLABEL ",
        " COMMENT ",
    ];
    let tails = strings(&['7', '0', ' ', 'A', '\n', '\u{663}'], 3);
    for head in heads {
        for tail in &tails {
            let s = format!("{}{}", head, tail);
            assert_eq!(comment(&comment_pattern, &s), compile_comment(&s), "{:?}", s);
            assert_eq!(define(&define_pattern, &s), compile_define(&s), "{:?}", s);
        }
    }
    assert_eq!(Some(u32::MAX), compile_comment("COMMENT 4294967295"));
    assert_eq!(None, compile_comment("COMMENT 4294967296"));
    assert_eq!(
        Some(DefineInstruction::LABEL(u32::MAX)),
        compile_define("DEFINE LABEL 4294967295")
    );
    assert_eq!(None, compile_define("DEFINE LABEL 4294967296"));
    assert_eq!(
        Some(DefineInstruction::COMMENT(0)),
        compile_define("DEFINE COMMENT 000")
    );
}

struct Patterns {
    command: Regex,
    comment: Regex,
    define: Regex,
    new_label: Regex,
    label: Regex,
    command_value: Regex,
}

impl Patterns {
    fn new() -> Self {
        Self {
            command: Regex::new(r"^([A-Z]+)(?:\s+(.*)|(\s*))$").unwrap(),
            comment: Regex::new(r"^COMMENT\s+(\d+)$").unwrap(),
            define: Regex::new(r"^DEFINE\s+(COMMENT|LABEL)\s+(\d+)$").unwrap(),
            new_label: Regex::new(r"^([a-z]+):$").unwrap(),
            label: Regex::new(r"^([a-z]+)$").unwrap(),
            command_value: Regex::new(r"^(\[\d+]|\d+)$").unwrap(),
        }
    }

    /// What the line stands for, written as the keyword and the operand in
    /// the way `{:?}` prints them.
    fn command(&self, instruction: &str) -> Option<(String, String)> {
        let captures = self.command.captures(instruction)?;
        let keyword = &captures[1];
        let args = captures
            .get(2)
            .or(captures.get(3))
            .map_or("", |found| found.as_str());
        let operand = match keyword {
            "INBOX" | "OUTBOX" => {
                if args.is_empty() {
                    Some(String::new())
                } else {
                    None
                }
            }
            "COPYFROM" | "COPYTO" | "ADD" | "SUB" | "BUMPUP" | "BUMPDN" => {
                command_value(&self.command_value, args).map(|operand| format!("{:?}", operand))
            }
            "JUMP" | "JUMPZ" | "JUMPN" => self
                .label
                .captures(args)
                .map(|captures| format!("{:?}", &captures[1])),
            _ => None,
        }?;
        Some((keyword.to_string(), operand))
    }

    /// What the line says, written in the way `{:?}` prints it.
    fn instruction(&self, instruction: &str) -> Result<String, String> {
        let instruction = instruction.trim();
        if instruction.is_empty() {
            return Ok(String::from("Empty"));
        }
        if instruction.starts_with("--") && instruction.ends_with("--") {
            return Ok(String::from("CommentedCode"));
        }
        if let Some(id) = comment(&self.comment, instruction) {
            return Ok(format!("Comment({})", id));
        }
        if let Some(define_instruction) = define(&self.define, instruction) {
            return Ok(format!("Define({:?})", define_instruction));
        }
        if let Some(captures) = self.new_label.captures(instruction) {
            return Ok(format!("Label({:?})", &captures[1]));
        }
        if let Some((keyword, operand)) = self.command(instruction) {
            return Ok(format!("Command({} {})", keyword, operand));
        }
        Err(instruction.to_string())
    }
}

fn written(command: &AnyCommand) -> (String, String) {
    let keyword = command.factory().command().to_string();
    let printed = format!("{:?}", command);
    // `Kind(Kind(operand))`, or `Kind(Kind)` where there is no operand.
    let inner = &printed[printed.find('(').unwrap() + 1..printed.len() - 1];
    let operand = match inner.find('(') {
        Some(at) => inner[at + 1..inner.len() - 1].to_string(),
        None => String::new(),
    };
    (keyword, operand)
}

fn said(line: Result<ParsedLine, ParseError>) -> Result<String, String> {
    match line {
        Ok(ParsedLine::Command(command)) => {
            let (keyword, operand) = written(&command);
            Ok(format!("Command({} {})", keyword, operand))
        }
        Ok(parsed) => Ok(format!("{:?}", parsed)),
        Err(ParseError::IllegalLine(line)) => Err(line),
    }
}

fn lines() -> Vec<String> {
    let keywords = [
        "INBOX", "OUTBOX", "COPYFROM", "COPYTO", "ADD", "SUB", "BUMPUP", "BUMPDN", "JUMP",
        "JUMPZ", "JUMPN", "NOP", "A", "COMMENT", "DEFINE", "inbox", "Add", "",
    ];
    let gaps = ["", " ", "  ", "\t", " \u{a0}\t", "\u{2003}", "-", "1", "a"];
    let args = [
        "", "0", "12", "[12]", "[ 12 ]", "[12", "12]", "a", "abc", "aBc", "a b", "a ", "12 ", "1a",
        "[a]", "A", ":", "a:", "--", "18446744073709551616", "LABEL 3", "COMMENT 3", "\u{663}",
        "a\nb", "1\n",
    ];
    let mut lines = Vec::new();
    for keyword in keywords {
        for gap in gaps {
            for arg in args {
                for margin in ["", " ", "\t\r"] {
                    lines.push(format!("{}{}{}{}{}", margin, keyword, gap, arg, margin));
                }
            }
        }
    }
    lines.extend(strings(&ALPHABET, 3));
    lines.extend(
        [
            "--", "---", "-", "- -", "-- INBOX --", "--INBOX", "INBOX--", "-- a\n--", "a:", " a: ",
            "a :", "a:b", "JUMPa", "JUMP\u{a0}a", "ADD\t[3]", "ADD3", "ADD [3] ", "CMD1",
        ]
        .iter()
        .map(|line| line.to_string()),
    );
    lines
}

#[test]
fn commands_are_what_the_patterns_match() {
    let patterns = Patterns::new();
    let compiler = Compiler::default();
    for line in lines() {
        assert_eq!(
            patterns.command(&line),
            compiler
                .compile_command(&line)
                .map(|command| written(&command)),
            "{:?}",
            line
        );
    }
}

#[test]
fn instructions_are_what_the_patterns_match() {
    let patterns = Patterns::new();
    let compiler = Compiler::default();
    for line in lines() {
        assert_eq!(
            patterns.instruction(&line),
            said(compiler.compile_instruction(&line)),
            "{:?}",
            line
        );
    }
}
