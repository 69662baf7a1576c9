//! The output field separator, read from a single command-line token.
//!
//! A delimiter is one ASCII byte.  It is parsed from a token that is either
//! one ASCII character or one of the escapes `\t` and `\n`, and it decides
//! the extension of files written per sheet: a tab gives `tsv`, anything
//! else gives `csv`.

use vstd::prelude::*;

verus! {

/// One ASCII byte used to separate fields in the output.
#[derive(Clone, Copy, Debug)]
pub struct Delimiter(pub u8);

/// Why a token was rejected as a delimiter.
#[derive(Clone, Copy, Debug, PartialEq, Eq, Structural)]
pub enum DelimiterError {
    /// The token is not a single character and not a recognized escape.
    NotSingleChar,
    /// The token is a single character outside the ASCII range.
    NotAscii,
}

/// The delimiter byte a token stands for, or `None` when the token is
/// rejected: `\t` and `\n` name tab and newline, any other token must be a
/// single ASCII character.
pub open spec fn spec_parse_delimiter(s: Seq<char>) -> Option<u8> {
    if s.len() == 2 && s[0] == '\\' && s[1] == 't' {
        Some(9u8)
    } else if s.len() == 2 && s[0] == '\\' && s[1] == 'n' {
        Some(10u8)
    } else if s.len() == 1 && (s[0] as u32) < 128 {
        Some((s[0] as u32) as u8)
    } else {
        None
    }
}

impl Delimiter {
    /// The raw byte, for configuring a writer.
    pub fn as_byte(&self) -> (r: u8)
        ensures
            r == self.0,
    {
        self.0
    }

    /// The byte as a displayable character.
    pub fn as_char(&self) -> (r: char)
        ensures
            r == (self.0 as char),
    {
        self.0 as char
    }

    /// The file extension a per-sheet output file gets: `tsv` for a tab
    /// delimiter, `csv` for every other byte.
    pub fn to_file_extension(self) -> (r: String)
        ensures
            self.0 == 9 ==> r@ == "tsv"@,
            self.0 != 9 ==> r@ == "csv"@,
    {
        match self.0 {
            9u8 => String::from_str("tsv"),
            _ => String::from_str("csv"),
        }
    }

    /// Parses a command-line token as a delimiter.  Accepts the escapes
    /// `\t` and `\n` and any single ASCII character; rejects everything
    /// else, telling a too-long token apart from a non-ASCII character.
    pub fn parse(token: &str) -> (r: Result<Delimiter, DelimiterError>)
        ensures
            r is Ok <==> spec_parse_delimiter(token@) is Some,
            r is Ok ==> r->Ok_0.0 == spec_parse_delimiter(token@)->0,
            r is Err ==> (r->Err_0 == DelimiterError::NotAscii <==> (token@.len() == 1
                && (token@[0] as u32) >= 128)),
    {
        let n = token.unicode_len();
        if n == 2 {
            let c0 = token.get_char(0);
            let c1 = token.get_char(1);
            if c0 == '\\' && c1 == 't' {
                Ok(Delimiter(9))
            } else if c0 == '\\' && c1 == 'n' {
                Ok(Delimiter(10))
            } else {
                Err(DelimiterError::NotSingleChar)
            }
        } else if n == 1 {
            let c = token.get_char(0);
            let code: u32 = c as u32;
            if code < 128 {
                Ok(Delimiter(code as u8))
            } else {
                Err(DelimiterError::NotAscii)
            }
        } else {
            Err(DelimiterError::NotSingleChar)
        }
    }
}

} // verus!
