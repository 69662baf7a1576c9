//! Picking one sheet out of the workbook's ordered name list.
//!
//! A selector is parsed once from a user token: a token that reads as a
//! non-negative integer selects by zero-based index, any other token
//! selects by literal name.  Resolving a selector against the name list
//! either yields the chosen name or a structured error for diagnosis.

use vstd::prelude::*;

verus! {

/// Select a sheet by zero-based index or by exact name.
#[derive(Debug)]
pub enum SheetSelector {
    ById(usize),
    ByName(String),
}

impl Clone for SheetSelector {
    /// A clone is equal to the original.
    fn clone(&self) -> (res: SheetSelector)
        ensures
            res == *self,
    {
        match self {
            SheetSelector::ById(id) => SheetSelector::ById(*id),
            SheetSelector::ByName(name) => SheetSelector::ByName(name.clone()),
        }
    }
}

/// Why a selector failed to resolve against the sheet-name list.
#[derive(Clone, Debug)]
pub enum SelectorError {
    /// The index is not below the number of sheets.
    IdOutOfRange { id: usize, count: usize },
    /// No sheet bears this exact name.
    NameNotFound { name: String },
}

/// `c` is an ASCII decimal digit.
pub open spec fn is_digit(c: char) -> bool {
    48 <= c as u32 <= 57
}

/// The value of one ASCII decimal digit.
pub open spec fn digit_val(c: char) -> nat {
    (c as u32 - 48) as nat
}

/// The value of a sequence of decimal digits, most significant first.
pub open spec fn digits_val(s: Seq<char>) -> nat
    decreases s.len(),
{
    if s.len() == 0 {
        0
    } else {
        digits_val(s.drop_last()) * 10 + digit_val(s.last())
    }
}

/// Every character of `s` is an ASCII decimal digit.
pub open spec fn all_digits(s: Seq<char>) -> bool {
    forall|i: int| 0 <= i < s.len() ==> is_digit(#[trigger] s[i])
}

/// The token without its optional leading `+` sign.
pub open spec fn numeral_body(s: Seq<char>) -> Seq<char> {
    if s.len() >= 1 && s[0] == '+' {
        s.subrange(1, s.len() as int)
    } else {
        s
    }
}

/// The token reads as a non-negative integer that fits in `usize`: after
/// the optional `+` sign there is at least one character, all characters
/// are decimal digits, and the value is at most `usize::MAX`.
pub open spec fn is_usize_numeral(s: Seq<char>) -> bool {
    let b = numeral_body(s);
    b.len() > 0 && all_digits(b) && digits_val(b) <= usize::MAX
}

/// A digit sequence is worth at least as much as any of its prefixes.
proof fn lemma_digits_val_prefix(s: Seq<char>, i: int)
    requires
        0 <= i <= s.len(),
    ensures
        digits_val(s.subrange(0, i)) <= digits_val(s),
    decreases s.len(),
{
    if i == s.len() {
        assert(s.subrange(0, i) =~= s);
    } else {
        let head = s.drop_last();
        assert(s.subrange(0, i) =~= head.subrange(0, i));
        lemma_digits_val_prefix(head, i);
        assert(digits_val(head) * 10 >= digits_val(head)) by (nonlinear_arith);
    }
}

impl SheetSelector {
    /// Parses a user token.  A token that reads as a non-negative integer
    /// fitting in `usize` (digits with an optional leading `+`) selects by
    /// that index; any other token selects by literal name.  Never fails.
    pub fn parse(token: &str) -> (r: SheetSelector)
        ensures
            is_usize_numeral(token@) ==> r == SheetSelector::ById(
                digits_val(numeral_body(token@)) as usize,
            ),
            !is_usize_numeral(token@) ==> (r matches SheetSelector::ByName(n) && n@ == token@),
    {
        let n = token.unicode_len();
        let start: usize = if n >= 1 && token.get_char(0) == '+' {
            1
        } else {
            0
        };
        let ghost body = numeral_body(token@);
        proof {
            assert(body =~= token@.subrange(start as int, n as int));
        }
        if start >= n {
            return SheetSelector::ByName(String::from_str(token));
        }
        let mut i: usize = start;
        let mut acc: usize = 0;
        while i < n
            invariant
                start <= i <= n,
                n == token@.len(),
                start < n,
                body == numeral_body(token@),
                body =~= token@.subrange(start as int, n as int),
                all_digits(body.subrange(0, i - start)),
                acc == digits_val(body.subrange(0, i - start)),
            decreases n - i,
        {
            let c = token.get_char(i);
            let code: u32 = c as u32;
            proof {
                assert(body[i - start] == token@[i as int]);
            }
            if code < 48 || code > 57 {
                assert(!is_digit(body[i - start]));
                return SheetSelector::ByName(String::from_str(token));
            }
            let d: usize = (code - 48) as usize;
            let ghost prefix = body.subrange(0, i - start);
            let ghost next_prefix = body.subrange(0, i + 1 - start);
            proof {
                assert(next_prefix.drop_last() =~= prefix);
                assert(next_prefix.last() == body[i - start]);
            }
            if acc > (usize::MAX - d) / 10 {
                proof {
                    assert(acc * 10 + d > usize::MAX) by (nonlinear_arith)
                        requires
                            acc > (usize::MAX - d) / 10,
                            d <= 9,
                    ;
                    lemma_digits_val_prefix(body, i + 1 - start);
                    assert(digits_val(body) > usize::MAX);
                }
                return SheetSelector::ByName(String::from_str(token));
            }
            proof {
                assert(acc * 10 + d <= usize::MAX) by (nonlinear_arith)
                    requires
                        acc <= (usize::MAX - d) / 10,
                        d <= 9,
                ;
            }
            acc = acc * 10 + d;
            i = i + 1;
        }
        proof {
            assert(body.subrange(0, n - start) =~= body);
        }
        SheetSelector::ById(acc)
    }

    /// Resolves the selector against the ordered sheet-name list.  An index
    /// succeeds exactly when it is below the number of sheets and yields
    /// the name at that position; a name succeeds exactly when it is an
    /// exact element of the list and yields that element.
    pub fn find_in<'a>(&self, sheetnames: &'a Vec<String>) -> (r: Result<&'a String, SelectorError>)
        ensures
            match *self {
                SheetSelector::ById(id) => {
                    &&& (r is Ok <==> (id as int) < sheetnames@.len())
                    &&& (r matches Ok(s) ==> s == sheetnames@[id as int])
                    &&& (r matches Err(e) ==> e matches SelectorError::IdOutOfRange {
                        id: eid,
                        count,
                    } && eid == id && count as int == sheetnames@.len())
                },
                SheetSelector::ByName(name) => {
                    &&& (r is Ok <==> (exists|j: int|
                        0 <= j < sheetnames@.len() && sheetnames@[j]@ == name@))
                    &&& (r matches Ok(s) ==> s@ == name@)
                    &&& (r matches Err(e) ==> e matches SelectorError::NameNotFound { name: m }
                        && m@ == name@)
                },
            },
    {
        match self {
            SheetSelector::ById(id) => {
                if *id >= sheetnames.len() {
                    Err(SelectorError::IdOutOfRange { id: *id, count: sheetnames.len() })
                } else {
                    Ok(vstd::std_specs::vec::vec_index(sheetnames, *id))
                }
            },
            SheetSelector::ByName(name) => {
                let count = sheetnames.len();
                let mut j: usize = 0;
                while j < count
                    invariant
                        *self matches SheetSelector::ByName(nm) && nm@ == name@,
                        0 <= j <= count,
                        count == sheetnames@.len(),
                        forall|k: int| 0 <= k < j ==> sheetnames@[k]@ != name@,
                    decreases count - j,
                {
                    let candidate = vstd::std_specs::vec::vec_index(sheetnames, j);
                    if candidate.eq(name) {
                        return Ok(candidate);
                    }
                    j = j + 1;
                }
                Err(SelectorError::NameNotFound { name: name.clone() })
            },
        }
    }
}

} // verus!
