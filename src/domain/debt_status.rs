use vstd::prelude::*;

verus! {

/// Where a debt stands between its two parties.
#[derive(Debug, Clone, Copy, PartialEq, Eq, Structural)]
pub enum DebtStatus {
    Pending,
    Paid,
    Unpaid,
}

impl DebtStatus {
    /// The name under which a status is stored and shown.
    pub open spec fn text(self) -> Seq<char> {
        match self {
            DebtStatus::Pending => "pending"@,
            DebtStatus::Paid => "paid"@,
            DebtStatus::Unpaid => "unpaid"@,
        }
    }

    /// The name under which this status is stored and shown.
    pub fn as_str(&self) -> (r: &'static str)
        ensures
            r@ == self.text(),
    {
        match self {
            DebtStatus::Pending => "pending",
            DebtStatus::Paid => "paid",
            DebtStatus::Unpaid => "unpaid",
        }
    }

    /// The name of this status as an owned string.
    pub fn to_string(&self) -> (r: String)
        ensures
            r@ == self.text(),
    {
        String::from_str(self.as_str())
    }
}

} // verus!
