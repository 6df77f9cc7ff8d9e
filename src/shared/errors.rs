use vstd::prelude::*;
use vstd::string::StringExecFns;
use crate::domain::{SequenceType, kind_name, push_char};

verus! {

/// The characters of `cs` separated by `", "`.
pub open spec fn joined(cs: Seq<char>) -> Seq<char>
    decreases cs.len(),
{
    if cs.len() == 0 {
        Seq::empty()
    } else if cs.len() == 1 {
        seq![cs[0]]
    } else {
        joined(cs.drop_last()) + seq![',', ' ', cs.last()]
    }
}

/// `Illegal characters: '<chars joined by ", ">' are not allowed in <kind>`.
pub open spec fn malformed_message(illegal: Seq<char>, kind: SequenceType) -> Seq<char> {
    "Illegal characters: '"@ + joined(illegal) + "' are not allowed in "@ + kind_name(kind)
}

/// A sequence was rejected: `illegal_chars` are the characters outside the
/// alphabet of `kind`, in the order they occur, duplicates kept.
#[derive(Debug)]
pub struct MalformedSequence {
    pub illegal_chars: Vec<char>,
    pub kind: SequenceType,
}

impl MalformedSequence {
    pub fn new(illegal_chars: Vec<char>, kind: SequenceType) -> (r: Self)
        ensures
            r.illegal_chars@ == illegal_chars@,
            r.kind == kind,
    {
        Self { illegal_chars, kind }
    }

    /// The error's message, naming every illegal character and the kind.
    pub fn to_string(&self) -> (r: String)
        ensures
            r@ == malformed_message(self.illegal_chars@, self.kind),
    {
        let mut out = String::from_str("Illegal characters: '");
        let ghost prefix = out@;
        let n = self.illegal_chars.len();
        let mut i: usize = 0;
        while i < n
            invariant
                n == self.illegal_chars@.len(),
                0 <= i <= n,
                out@ == prefix + joined(self.illegal_chars@.subrange(0, i as int)),
            decreases n - i,
        {
            let c = self.illegal_chars[i];
            let ghost before = out@;
            if i > 0 {
                push_char(&mut out, ',');
                push_char(&mut out, ' ');
            }
            push_char(&mut out, c);
            proof {
                let done = self.illegal_chars@.subrange(0, i + 1);
                assert(done.drop_last() =~= self.illegal_chars@.subrange(0, i as int));
                assert(done.last() == c);
                if i > 0 {
                    assert(out@ =~= before + seq![',', ' ', c]);
                } else {
                    assert(joined(done) =~= seq![c]);
                }
                assert(out@ =~= prefix + joined(done));
            }
            i = i + 1;
        }
        assert(self.illegal_chars@.subrange(0, n as int) =~= self.illegal_chars@);
        out.append("' are not allowed in ");
        let name = self.kind.to_string();
        out.append(name.as_str());
        out
    }
}

} // verus!
