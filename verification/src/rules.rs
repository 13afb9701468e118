//! The policy under which a commitment is made.

use vstd::prelude::*;

verus! {

/// Seconds in one day of a commitment's duration.
pub const SECONDS_PER_DAY: u64 = 86400;

/// The highest acceptable value of a maximal loss, in percent.
pub const MAX_LOSS_LIMIT: u32 = 100;

/// The risk profile that a commitment declares.
#[derive(Clone, Copy, Debug, PartialEq, Eq, Structural)]
pub enum CommitmentType {
    Safe,
    Balanced,
    Aggressive,
}

impl CommitmentType {
    /// The type that a tag names: `safe`, `balanced` or `aggressive`, in lower
    /// case; no other text names a type.
    pub open spec fn from_tag(tag: Seq<char>) -> Option<CommitmentType> {
        if tag == "safe"@ {
            Some(CommitmentType::Safe)
        } else if tag == "balanced"@ {
            Some(CommitmentType::Balanced)
        } else if tag == "aggressive"@ {
            Some(CommitmentType::Aggressive)
        } else {
            None
        }
    }

    /// The tag that names this type.
    pub open spec fn tag_of(self) -> Seq<char> {
        match self {
            CommitmentType::Safe => "safe"@,
            CommitmentType::Balanced => "balanced"@,
            CommitmentType::Aggressive => "aggressive"@,
        }
    }

    /// Every type is the one that its own tag names.
    pub proof fn lemma_tag_names_type(self)
        ensures
            CommitmentType::from_tag(self.tag_of()) == Some(self),
    {
        reveal_strlit("safe");
        reveal_strlit("balanced");
        reveal_strlit("aggressive");
        assert("safe"@.len() == 4);
        assert("balanced"@.len() == 8);
        assert("aggressive"@.len() == 10);
    }

    /// Reads a type from its tag.
    pub fn parse(tag: &str) -> (parsed: Option<CommitmentType>)
        ensures
            parsed == CommitmentType::from_tag(tag@),
    {
        let text = tag.to_owned();
        if text == "safe".to_owned() {
            Some(CommitmentType::Safe)
        } else if text == "balanced".to_owned() {
            Some(CommitmentType::Balanced)
        } else if text == "aggressive".to_owned() {
            Some(CommitmentType::Aggressive)
        } else {
            None
        }
    }

    /// The tag that names this type.
    pub fn tag(&self) -> (tag: &'static str)
        ensures
            tag@ == self.tag_of(),
    {
        match self {
            CommitmentType::Safe => "safe",
            CommitmentType::Balanced => "balanced",
            CommitmentType::Aggressive => "aggressive",
        }
    }
}

/// The rules attached to a commitment when it is made. They never change.
#[derive(Clone, Copy, Debug, PartialEq, Eq, Structural)]
pub struct CommitmentRules {
    /// How long the commitment runs, in days.
    pub duration_days: u32,
    /// The loss, in percent of the principal, above which the commitment is in
    /// violation.
    pub max_loss_percent: u32,
    pub commitment_type: CommitmentType,
    /// The share of the current value, in percent, that an early exit forfeits.
    pub early_exit_penalty: u32,
    pub min_fee_threshold: i128,
}

impl CommitmentRules {
    /// Rules are acceptable when the duration is positive and the maximal loss
    /// is at most one hundred percent.
    pub open spec fn acceptable(&self) -> bool {
        self.duration_days > 0 && self.max_loss_percent <= MAX_LOSS_LIMIT
    }

    /// Whether the rules are acceptable.
    pub fn is_acceptable(&self) -> (ok: bool)
        ensures
            ok == self.acceptable(),
    {
        self.duration_days > 0 && self.max_loss_percent <= MAX_LOSS_LIMIT
    }
}

/// The time at which a commitment made at `created_at` for `duration_days`
/// days expires.
pub open spec fn expiry_of(created_at: u64, duration_days: u32) -> int {
    created_at + duration_days * SECONDS_PER_DAY
}

/// The expiry time of a commitment made at `created_at` for `duration_days`
/// days, or `None` where that time lies beyond the last `u64` second.
pub fn expiry(created_at: u64, duration_days: u32) -> (expires_at: Option<u64>)
    ensures
        expires_at == (if expiry_of(created_at, duration_days) <= u64::MAX {
            Some(expiry_of(created_at, duration_days) as u64)
        } else {
            None
        }),
{
    let days: u64 = duration_days as u64;
    let span: u64 = days * SECONDS_PER_DAY;
    created_at.checked_add(span)
}

} // verus!
