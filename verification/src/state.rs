//! The persisted records of a fund and their mathematical models.

use vstd::prelude::*;

verus! {

/// The phase of a fund. Only an `Open` fund accepts donations; `Closed` is
/// entered when the goal is reached and is never left.
#[derive(Clone, Copy, Debug, PartialEq, Eq, Structural)]
pub enum State {
    Open,
    Closed,
    Pending,
    Canceled,
}

/// Who may withdraw what the fund has raised.
#[derive(Debug, PartialEq, Eq)]
pub struct Owner {
    pub addr: String,
    pub email: String,
    pub fullname: String,
}

/// What a fund is raised for. Set when the fund is created and never changed.
#[derive(Debug, PartialEq, Eq)]
pub struct FundDetails {
    pub owner: Owner,
    pub title: String,
    pub description: String,
    pub amount_to_be_raised: u128,
    pub denom: String,
    pub image_url: String,
}

/// One accepted contribution.
#[derive(Debug, PartialEq, Eq)]
pub struct Donation {
    pub participant: String,
    pub message: String,
    pub amount: u128,
}

/// One fund: its details, its ledger in order of arrival and its phase.
#[derive(Debug, PartialEq, Eq)]
pub struct Fund {
    pub details: FundDetails,
    pub donations: Vec<Donation>,
    pub state: State,
}

/// The model of a fund: the ledger is a sequence.
pub struct FundView {
    pub details: FundDetails,
    pub donations: Seq<Donation>,
    pub state: State,
}

impl View for Fund {
    type V = FundView;

    open spec fn view(&self) -> FundView {
        FundView { details: self.details, donations: self.donations@, state: self.state }
    }
}

impl Clone for Owner {
    fn clone(&self) -> (copy: Self)
        ensures
            copy == *self,
    {
        Owner {
            addr: self.addr.clone(),
            email: self.email.clone(),
            fullname: self.fullname.clone(),
        }
    }
}

impl Clone for FundDetails {
    fn clone(&self) -> (copy: Self)
        ensures
            copy == *self,
    {
        FundDetails {
            owner: self.owner.clone(),
            title: self.title.clone(),
            description: self.description.clone(),
            amount_to_be_raised: self.amount_to_be_raised,
            denom: self.denom.clone(),
            image_url: self.image_url.clone(),
        }
    }
}

impl Clone for Donation {
    fn clone(&self) -> (copy: Self)
        ensures
            copy == *self,
    {
        Donation {
            participant: self.participant.clone(),
            message: self.message.clone(),
            amount: self.amount,
        }
    }
}

/// The sum of the amounts of a ledger, entry by entry.
pub open spec fn ledger_sum(entries: Seq<Donation>) -> nat
    decreases entries.len(),
{
    if entries.len() == 0 {
        0
    } else {
        ledger_sum(entries.drop_last()) + entries.last().amount as nat
    }
}

/// No entry of the ledger has the amount zero.
pub open spec fn all_positive(entries: Seq<Donation>) -> bool {
    forall|i: int| 0 <= i < entries.len() ==> (#[trigger] entries[i]).amount > 0
}

impl FundView {
    /// What every fund made and changed by this library satisfies: no entry
    /// is empty, and the total fits in 128 bits.
    pub open spec fn well_formed(self) -> bool {
        &&& all_positive(self.donations)
        &&& ledger_sum(self.donations) <= u128::MAX
    }
}

} // verus!
