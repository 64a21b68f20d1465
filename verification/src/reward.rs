//! Reward tiers: which tier an amount falls in, and the instruction that
//! asks the reward service for a token of that tier.

use vstd::prelude::*;
use crate::decimal::decimal_text;
use crate::decimal::digit_value;
use crate::decimal::lemma_decimal_text_denotes;
use crate::decimal::to_decimal;
use crate::msg::Instruction;

verus! {

/// A reward tier, lowest first.
#[derive(Clone, Copy, Debug, PartialEq, Eq, Structural)]
pub enum Tier {
    D3,
    D2,
    D1,
    S,
    Elite,
}

/// The tier of an amount in whole units: 11 to 49 is `d-3`, 50 to 69 is
/// `d-2`, 70 to 99 is `d-1`, 100 to 499 is `s`, 500 and more is `elite`,
/// and 10 and less earns no reward.
pub open spec fn tier_of(whole_units: nat) -> Option<Tier> {
    if 11 <= whole_units <= 49 {
        Some(Tier::D3)
    } else if 50 <= whole_units <= 69 {
        Some(Tier::D2)
    } else if 70 <= whole_units <= 99 {
        Some(Tier::D1)
    } else if 100 <= whole_units <= 499 {
        Some(Tier::S)
    } else if 500 <= whole_units {
        Some(Tier::Elite)
    } else {
        None
    }
}

impl Tier {
    /// The least amount in whole units that earns this tier.
    pub open spec fn spec_floor(self) -> nat {
        match self {
            Tier::D3 => 11,
            Tier::D2 => 50,
            Tier::D1 => 70,
            Tier::S => 100,
            Tier::Elite => 500,
        }
    }

    /// The name of the tier as it stands in a token identifier.
    pub open spec fn name_text(self) -> Seq<char> {
        match self {
            Tier::D3 => "d-3"@,
            Tier::D2 => "d-2"@,
            Tier::D1 => "d-1"@,
            Tier::S => "s"@,
            Tier::Elite => "elite"@,
        }
    }

    /// The registered metadata of the tier's token.
    pub open spec fn metadata_uri_text(self) -> Seq<char> {
        match self {
            Tier::D3 => "https://ipfs.io/ipfs/bafkreiburzi2iphi5jf2rl2rzqvae6qrxgmpezguwbi65s5spzvgg5xyzu"@,
            Tier::D2 => "https://ipfs.io/ipfs/bafkreibiorot22hrse3qjsaomb7fcizujfnp7rte3koqboszgrjeh54ubu"@,
            Tier::D1 => "https://ipfs.io/ipfs/bafkreibeo3detwdrksydm7jrrbwdak6u53gjby5wcrcpky4mcehw4zb7hi"@,
            Tier::S => "https://ipfs.io/ipfs/bafkreievs65xrrdzckzm2rsqvpw3htjolygji5nosudcgma7lfyifuvvmm"@,
            Tier::Elite => "https://ipfs.io/ipfs/bafkreiaceflv7edhh7wudylmoqsue7ggy2kmkvmjwlp57fah2syzcml7cq"@,
        }
    }

    pub fn floor(self) -> (least: u128)
        ensures
            least == self.spec_floor(),
    {
        match self {
            Tier::D3 => 11,
            Tier::D2 => 50,
            Tier::D1 => 70,
            Tier::S => 100,
            Tier::Elite => 500,
        }
    }

    pub fn name(self) -> (name: &'static str)
        ensures
            name@ == self.name_text(),
    {
        match self {
            Tier::D3 => "d-3",
            Tier::D2 => "d-2",
            Tier::D1 => "d-1",
            Tier::S => "s",
            Tier::Elite => "elite",
        }
    }

    pub fn metadata_uri(self) -> (uri: &'static str)
        ensures
            uri@ == self.metadata_uri_text(),
    {
        match self {
            Tier::D3 => "https://ipfs.io/ipfs/bafkreiburzi2iphi5jf2rl2rzqvae6qrxgmpezguwbi65s5spzvgg5xyzu",
            Tier::D2 => "https://ipfs.io/ipfs/bafkreibiorot22hrse3qjsaomb7fcizujfnp7rte3koqboszgrjeh54ubu",
            Tier::D1 => "https://ipfs.io/ipfs/bafkreibeo3detwdrksydm7jrrbwdak6u53gjby5wcrcpky4mcehw4zb7hi",
            Tier::S => "https://ipfs.io/ipfs/bafkreievs65xrrdzckzm2rsqvpw3htjolygji5nosudcgma7lfyifuvvmm",
            Tier::Elite => "https://ipfs.io/ipfs/bafkreiaceflv7edhh7wudylmoqsue7ggy2kmkvmjwlp57fah2syzcml7cq",
        }
    }
}

/// The tier of an amount in whole units, or `None` where it earns no reward.
///
/// The tiers are tried from the highest down; the first whose floor the
/// amount reaches is the answer.
pub fn resolve(normalized_amount: u128) -> (tier: Option<Tier>)
    ensures
        tier == tier_of(normalized_amount as nat),
{
    let ladder = [Tier::Elite, Tier::S, Tier::D1, Tier::D2, Tier::D3];
    let mut i: usize = 0;
    while i < 5
        invariant
            i <= 5,
            ladder@ == seq![Tier::Elite, Tier::S, Tier::D1, Tier::D2, Tier::D3],
            forall|j: int| 0 <= j < i ==> normalized_amount < (#[trigger] ladder@[j]).spec_floor(),
        decreases 5 - i,
    {
        let tier = ladder[i];
        if normalized_amount >= tier.floor() {
            return Some(tier);
        }
        i += 1;
    }
    None
}

} // verus!

verus! {

/// How one deployment issues rewards: how many smallest units make a whole
/// unit of the currency, for which currencies rewards are issued, and where
/// the request for a token is sent.
#[derive(Debug)]
pub struct RewardPolicy {
    unit: u128,
    eligible_denoms: Vec<String>,
    service: String,
    collection: String,
}

/// The model of a reward policy.
pub struct RewardPolicyView {
    pub unit: u128,
    pub eligible_denoms: Seq<String>,
    pub service: String,
    pub collection: String,
}

impl View for RewardPolicy {
    type V = RewardPolicyView;

    closed spec fn view(&self) -> RewardPolicyView {
        RewardPolicyView {
            unit: self.unit,
            eligible_denoms: self.eligible_denoms@,
            service: self.service,
            collection: self.collection,
        }
    }
}

impl RewardPolicyView {
    /// Rewards are issued for donations in this currency.
    pub open spec fn accepts(self, denom: Seq<char>) -> bool {
        exists|i: int|
            0 <= i < self.eligible_denoms.len() && (#[trigger] self.eligible_denoms[i])@ == denom
    }

    /// The tier that a donation of `paid` smallest units in `denom` earns:
    /// the tier of the whole units in it, rounded down, where rewards are
    /// issued for the currency at all.
    pub open spec fn reward_for(self, denom: Seq<char>, paid: u128) -> Option<Tier> {
        if self.accepts(denom) {
            tier_of((paid as nat) / (self.unit as nat))
        } else {
            None
        }
    }
}

/// The identifier of a reward token: the tier's name, the recipient and the
/// height of the block, joined by hyphens.
pub open spec fn token_id_text(tier: Tier, recipient: Seq<char>, height: u64) -> Seq<char> {
    tier.name_text() + seq!['-'] + recipient + seq!['-'] + decimal_text(height as nat)
}

/// The instruction asks the policy's service for the token of `tier` for
/// `recipient`, in the policy's collection.
pub open spec fn issues_reward(
    instruction: Instruction,
    policy: RewardPolicyView,
    tier: Tier,
    recipient: String,
    height: u64,
) -> bool {
    match instruction {
        Instruction::IssueReward { service, recipient: to, token_id, token_uri, collection } => {
            &&& service == policy.service
            &&& to == recipient
            &&& token_id@ == token_id_text(tier, recipient@, height)
            &&& token_uri@ == tier.metadata_uri_text()
            &&& collection == policy.collection
        },
        Instruction::Transfer { .. } => false,
    }
}

/// Builds the identifier of a reward token.
pub fn token_id(tier: Tier, recipient: &String, height: u64) -> (id: String)
    ensures
        id@ == token_id_text(tier, recipient@, height),
{
    proof {
        reveal_strlit("-");
    }
    let mut id = String::from_str(tier.name());
    id.append("-");
    id.append(recipient.as_str());
    id.append("-");
    let height_text = to_decimal(height as u128);
    id.append(height_text.as_str());
    assert(id@ =~= token_id_text(tier, recipient@, height));
    id
}

impl RewardPolicy {
    #[verifier::type_invariant]
    spec fn unit_is_positive(self) -> bool {
        self.unit > 0
    }

    /// A policy with `unit` smallest units to the whole unit; `None` where
    /// `unit` is zero.
    pub fn new(
        unit: u128,
        eligible_denoms: Vec<String>,
        service: String,
        collection: String,
    ) -> (policy: Option<RewardPolicy>)
        ensures
            policy is Some <==> unit > 0,
            policy matches Some(p) ==> p@ == (RewardPolicyView {
                unit,
                eligible_denoms: eligible_denoms@,
                service,
                collection,
            }),
    {
        if unit == 0 {
            None
        } else {
            Some(RewardPolicy { unit, eligible_denoms, service, collection })
        }
    }

    /// The number of smallest units in a whole unit; never zero.
    pub fn unit(&self) -> (unit: u128)
        ensures
            unit == self@.unit,
            unit > 0,
    {
        proof {
            use_type_invariant(self);
        }
        self.unit
    }

    /// Whether rewards are issued for donations in `denom`.
    pub fn accepts(&self, denom: &String) -> (accepted: bool)
        ensures
            accepted == self@.accepts(denom@),
    {
        let mut i: usize = 0;
        while i < self.eligible_denoms.len()
            invariant
                i <= self.eligible_denoms@.len(),
                forall|j: int| 0 <= j < i ==> (#[trigger] self.eligible_denoms@[j])@ != denom@,
            decreases self.eligible_denoms@.len() - i,
        {
            if self.eligible_denoms[i] == *denom {
                assert(self@.eligible_denoms[i as int]@ == denom@);
                return true;
            }
            i += 1;
        }
        false
    }

    /// The tier that a donation of `paid` smallest units in `denom` earns.
    pub fn reward_for(&self, denom: &String, paid: u128) -> (tier: Option<Tier>)
        ensures
            tier == self@.reward_for(denom@, paid),
    {
        if self.accepts(denom) {
            resolve(paid / self.unit())
        } else {
            None
        }
    }

    /// The instruction that asks for the token of `tier` for `recipient`.
    pub fn issue(&self, tier: Tier, recipient: &String, height: u64) -> (instruction: Instruction)
        ensures
            issues_reward(instruction, self@, tier, *recipient, height),
    {
        Instruction::IssueReward {
            service: self.service.clone(),
            recipient: recipient.clone(),
            token_id: token_id(tier, recipient, height),
            token_uri: String::from_str(tier.metadata_uri()),
            collection: self.collection.clone(),
        }
    }
}

} // verus!

verus! {

/// The height at the end of an identifier can be read off it: identifiers
/// that are the same end in the same height.
proof fn lemma_token_id_height(
    tier1: Tier,
    recipient1: Seq<char>,
    height1: u64,
    tier2: Tier,
    recipient2: Seq<char>,
    height2: u64,
)
    requires
        token_id_text(tier1, recipient1, height1) == token_id_text(tier2, recipient2, height2),
    ensures
        decimal_text(height1 as nat).len() <= decimal_text(height2 as nat).len(),
{
    let id1 = token_id_text(tier1, recipient1, height1);
    let id2 = token_id_text(tier2, recipient2, height2);
    let d1 = decimal_text(height1 as nat);
    let d2 = decimal_text(height2 as nat);
    lemma_decimal_text_denotes(height1 as nat);
    lemma_decimal_text_denotes(height2 as nat);
    if d2.len() < d1.len() {
        let head2 = tier2.name_text() + seq!['-'] + recipient2;
        let p = id2.len() - d2.len() - 1;
        assert(p == head2.len());
        assert(id2[p] == '-');
        let head1 = tier1.name_text() + seq!['-'] + recipient1 + seq!['-'];
        assert(id1 == head1 + d1);
        assert(p >= head1.len());
        assert(id1[p] == d1[p - head1.len()]);
        assert(digit_value(d1[p - head1.len()]) is Some);
        assert(false);
    }
}

/// An identifier names one reward: two of them are the same only where the
/// tier, the recipient and the height are.
pub proof fn lemma_token_id_injective(
    tier1: Tier,
    recipient1: Seq<char>,
    height1: u64,
    tier2: Tier,
    recipient2: Seq<char>,
    height2: u64,
)
    requires
        token_id_text(tier1, recipient1, height1) == token_id_text(tier2, recipient2, height2),
    ensures
        tier1 == tier2,
        recipient1 == recipient2,
        height1 == height2,
{
    let id1 = token_id_text(tier1, recipient1, height1);
    let id2 = token_id_text(tier2, recipient2, height2);
    let d1 = decimal_text(height1 as nat);
    let d2 = decimal_text(height2 as nat);
    let n1 = tier1.name_text();
    let n2 = tier2.name_text();
    let head1 = n1 + seq!['-'] + recipient1 + seq!['-'];
    let head2 = n2 + seq!['-'] + recipient2 + seq!['-'];
    assert(id1 == head1 + d1);
    assert(id2 == head2 + d2);

    lemma_token_id_height(tier1, recipient1, height1, tier2, recipient2, height2);
    lemma_token_id_height(tier2, recipient2, height2, tier1, recipient1, height1);
    assert(head1.len() == head2.len());
    assert(d1 =~= d2) by {
        assert forall|i: int| 0 <= i < d1.len() implies d1[i] == d2[i] by {
            assert(id1[head1.len() + i] == d1[i]);
            assert(id2[head2.len() + i] == d2[i]);
        }
    }
    lemma_decimal_text_denotes(height1 as nat);
    lemma_decimal_text_denotes(height2 as nat);
    assert(height1 == height2);

    reveal_strlit("d-3");
    reveal_strlit("d-2");
    reveal_strlit("d-1");
    reveal_strlit("s");
    reveal_strlit("elite");
    assert(id1[0] == n1[0]);
    assert(id2[0] == n2[0]);
    if n1.len() == 3 {
        assert(id1[2] == n1[2]);
    }
    if n2.len() == 3 {
        assert(id2[2] == n2[2]);
    }
    assert(tier1 == tier2);

    assert(recipient1 =~= recipient2) by {
        assert(recipient1.len() == recipient2.len());
        assert forall|i: int| 0 <= i < recipient1.len() implies recipient1[i] == recipient2[i] by {
            assert(id1[n1.len() + 1 + i] == recipient1[i]);
            assert(id2[n2.len() + 1 + i] == recipient2[i]);
        }
    }
}

} // verus!
