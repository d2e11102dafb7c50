//! TIN root + branch code — the BIR registration-unit uniqueness key.

use vstd::prelude::*;

use crate::text::{
    all_digits, concat2, digits_chars, digits_of, lemma_digits_of_all_digits, push_char,
    str_eq, string_of, string_of_range,
};

verus! {

/// Normalized branch code for raw input: five digits, or a legacy
/// three-digit code padded with `00`.
pub open spec fn branch_code_normal(raw: Seq<char>) -> Option<Seq<char>> {
    let d = digits_of(raw);
    if d.len() == 5 {
        Some(d)
    } else if d.len() == 3 {
        Some(seq!['0', '0'] + d)
    } else {
        None
    }
}

/// Nine-digit taxpayer identity (TIN root), independent of branch suffix.
#[derive(Debug, PartialEq, Eq, Hash)]
pub struct TinRoot(String);

impl View for TinRoot {
    type V = Seq<char>;

    closed spec fn view(&self) -> Seq<char> {
        self.0@
    }
}

impl TinRoot {
    #[verifier::type_invariant]
    closed spec fn inv(&self) -> bool {
        self.0@.len() == 9 && all_digits(self.0@)
    }

    /// Keeps the ASCII digits of `raw`; exactly nine are required.
    pub fn parse(raw: &str) -> (res: Result<Self, String>)
        ensures
            res is Ok <==> digits_of(raw@).len() == 9,
            res matches Ok(t) ==> t@ == digits_of(raw@),
            res matches Err(e) ==> e@ == "tin_root must be exactly 9 digits"@,
    {
        let digits = digits_chars(raw);
        if digits.len() != 9 {
            return Err("tin_root must be exactly 9 digits".to_owned());
        }
        proof {
            lemma_digits_of_all_digits(raw@);
        }
        Ok(TinRoot(string_of(&digits)))
    }

    pub fn as_str(&self) -> (s: &str)
        ensures
            s@ == self@,
            s@.len() == 9,
            all_digits(s@),
    {
        proof {
            use_type_invariant(self);
        }
        self.0.as_str()
    }

    /// `NNN-NNN-NNN`.
    pub fn dashed(&self) -> (s: String)
        ensures
            s@ == self@.subrange(0, 3) + seq!['-'] + self@.subrange(3, 6) + seq!['-']
                + self@.subrange(6, 9),
    {
        proof {
            use_type_invariant(self);
        }
        let v = crate::text::chars_of(self.0.as_str());
        let mut s = string_of_range(&v, 0, 3);
        push_char(&mut s, '-');
        let b = string_of_range(&v, 3, 6);
        s.append(b.as_str());
        push_char(&mut s, '-');
        let c = string_of_range(&v, 6, 9);
        s.append(c.as_str());
        s
    }
}

impl Clone for TinRoot {
    fn clone(&self) -> (r: Self)
        ensures
            r@ == self@,
    {
        proof {
            use_type_invariant(self);
        }
        TinRoot(self.0.clone())
    }
}

/// Five-digit BIR branch code. Head office is `00000`.
#[derive(Debug, PartialEq, Eq, Hash)]
pub struct BranchCode(String);

impl View for BranchCode {
    type V = Seq<char>;

    closed spec fn view(&self) -> Seq<char> {
        self.0@
    }
}

impl BranchCode {
    pub const HEAD_OFFICE: &'static str = "00000";

    #[verifier::type_invariant]
    closed spec fn inv(&self) -> bool {
        self.0@.len() == 5 && all_digits(self.0@)
    }

    /// Keeps the ASCII digits of `raw`: five are kept as they are, three are
    /// padded to `00NNN`, any other count is rejected.
    pub fn parse(raw: &str) -> (res: Result<Self, String>)
        ensures
            res is Ok <==> branch_code_normal(raw@) is Some,
            res matches Ok(b) ==> Some(b@) == branch_code_normal(raw@),
            res matches Err(e) ==> e@ == "branch_code must be 5 digits (head office 00000)"@,
    {
        let digits = digits_chars(raw);
        proof {
            lemma_digits_of_all_digits(raw@);
        }
        if digits.len() == 5 {
            Ok(BranchCode(string_of(&digits)))
        } else if digits.len() == 3 {
            let mut s = String::new();
            push_char(&mut s, '0');
            push_char(&mut s, '0');
            let tail = string_of(&digits);
            s.append(tail.as_str());
            assert(s@ =~= seq!['0', '0'] + digits@);
            Ok(BranchCode(s))
        } else {
            Err("branch_code must be 5 digits (head office 00000)".to_owned())
        }
    }

    pub fn as_str(&self) -> (s: &str)
        ensures
            s@ == self@,
            s@.len() == 5,
            all_digits(s@),
    {
        proof {
            use_type_invariant(self);
        }
        self.0.as_str()
    }

    pub fn is_head_office(&self) -> (b: bool)
        ensures
            b == (self@ == Self::HEAD_OFFICE@),
    {
        str_eq(self.0.as_str(), Self::HEAD_OFFICE)
    }
}

impl Clone for BranchCode {
    fn clone(&self) -> (r: Self)
        ensures
            r@ == self@,
    {
        proof {
            use_type_invariant(self);
        }
        BranchCode(self.0.clone())
    }
}

/// Registration unit: TIN root + branch code.
///
/// Used to attest identity at create/claim time. Cloud exclusive ownership
/// is enforced on the hashed identity, never on this value as a primary key.
#[derive(Debug, PartialEq, Eq, Hash)]
pub struct RegistrationKey {
    pub tin_root: TinRoot,
    pub branch_code: BranchCode,
}

impl View for RegistrationKey {
    type V = (Seq<char>, Seq<char>);

    open spec fn view(&self) -> (Seq<char>, Seq<char>) {
        (self.tin_root@, self.branch_code@)
    }
}

impl Clone for RegistrationKey {
    fn clone(&self) -> (r: Self)
        ensures
            r@ == self@,
    {
        RegistrationKey { tin_root: self.tin_root.clone(), branch_code: self.branch_code.clone() }
    }
}

impl RegistrationKey {
    pub fn new(tin_root: TinRoot, branch_code: BranchCode) -> (k: Self)
        ensures
            k@ == (tin_root@, branch_code@),
    {
        RegistrationKey { tin_root, branch_code }
    }

    /// Parses both parts; the TIN root error wins when both are invalid.
    pub fn parse(tin_root: &str, branch_code: &str) -> (res: Result<Self, String>)
        ensures
            res is Ok <==> (digits_of(tin_root@).len() == 9 && branch_code_normal(
                branch_code@,
            ) is Some),
            res matches Ok(k) ==> k@.0 == digits_of(tin_root@) && Some(k@.1)
                == branch_code_normal(branch_code@),
            res matches Err(e) ==> if digits_of(tin_root@).len() != 9 {
                e@ == "tin_root must be exactly 9 digits"@
            } else {
                e@ == "branch_code must be 5 digits (head office 00000)"@
            },
    {
        let root = TinRoot::parse(tin_root)?;
        let branch = BranchCode::parse(branch_code)?;
        Ok(Self::new(root, branch))
    }

    /// Compact 14-digit filing identifier.
    pub fn compact(&self) -> (s: String)
        ensures
            s@ == self.tin_root@ + self.branch_code@,
    {
        concat2(self.tin_root.as_str(), self.branch_code.as_str())
    }

    /// `TTTTTTTTT-BBBBB` display id (not the cloud event-stream key).
    pub fn stream_id(&self) -> (s: String)
        ensures
            s@ == self.tin_root@ + seq!['-'] + self.branch_code@,
    {
        let mut s = self.tin_root.as_str().to_owned();
        push_char(&mut s, '-');
        s.append(self.branch_code.as_str());
        s
    }

    /// `NNN-NNN-NNN-BBBBB`.
    pub fn dashed_display(&self) -> (s: String)
        ensures
            s@ == self.tin_root@.subrange(0, 3) + seq!['-'] + self.tin_root@.subrange(3, 6)
                + seq!['-'] + self.tin_root@.subrange(6, 9) + seq!['-'] + self.branch_code@,
    {
        let mut s = self.tin_root.dashed();
        push_char(&mut s, '-');
        s.append(self.branch_code.as_str());
        s
    }
}

} // verus!
