//! The crowdfunding ledger: a multi-party pooled-funding record (a project)
//! with a funding goal, an expiry time and a running collected total. It
//! accepts incremental contributions while open and a one-time goal- or
//! expiry-gated claim that closes it for good.
//!
//! The host authenticates callers, supplies the clock and the pooled
//! balance, and moves external funds; this module only decides whether a
//! transition is legal and computes the new record.

use vstd::prelude::*;

use crate::arith::add_checked;

verus! {

/// Longest accepted project title, in bytes.
pub const TITLE_LENGTH: usize = 32;

/// Longest accepted project description, in bytes.
pub const DESCRIPTION_LENGTH: usize = 500;

/// Why a crowdfunding operation was refused. Every failure leaves the
/// project exactly as it was.
#[derive(Clone, Copy, Debug, PartialEq, Eq, Structural)]
pub enum CrowdfundingError {
    /// The title exceeds `TITLE_LENGTH` bytes.
    TitleTooLong,
    /// The description exceeds `DESCRIPTION_LENGTH` bytes.
    DescriptionTooLong,
    /// A project's funding goal must be at least one unit.
    GoalMustBeGreaterThanZero,
    /// The expiry time must lie strictly after the creation time.
    ExpiresAtMustBeGreaterThanNow,
    /// A contribution must move at least one unit.
    AmountMustBeGreaterThanZero,
    /// Neither the goal has been reached nor the expiry passed.
    TooEarlyToClaim,
    /// The pooled balance does not exceed the reserve the storage host
    /// requires to keep the record alive.
    InsufficientFundsToClaim,
    /// The project has been claimed and is terminally closed.
    AlreadyClosed,
    /// The contribution would push the collected total past the balance
    /// width.
    Overflow,
}

/// How many bytes the UTF-8 encoding of a string takes.
pub open spec fn byte_len(s: Seq<char>) -> nat {
    vstd::utf8::encode_utf8(s).len()
}

/// Relies on str::len: it returns the slice's length in bytes, which always
/// fits in usize because the slice is backed by real memory.
#[verifier::external_body]
fn byte_length(s: &str) -> (n: usize)
    ensures
        n == byte_len(s@),
{
    s.len()
}

/// A pooled-funding record. `owner` is an opaque host-validated identity;
/// `closed_at` is `None` while the project is open and carries the claim
/// time once it is terminally closed.
#[derive(Clone, Debug)]
pub struct Project {
    pub owner: u64,
    pub title: String,
    pub description: String,
    pub amount_goal: u64,
    pub amount_collected: u64,
    pub goal_expires_at: i64,
    pub closed_at: Option<i64>,
    pub created_at: i64,
    pub contribution_id_counter: u64,
}

/// An immutable record of one funding event against a project, uniquely
/// identified by the project's monotonic counter at creation time.
#[derive(Clone, Copy, Debug, PartialEq, Eq, Structural)]
pub struct Contribution {
    pub contributor: u64,
    pub project: u64,
    pub amount: u64,
    pub created_at: i64,
    pub sequence: u64,
}

impl Project {
    /// Well-formedness: the validated field bounds that `initialize_project`
    /// establishes and every operation preserves. The counter never exceeds
    /// the collected total because each of the counted contributions moved
    /// at least one unit.
    pub open spec fn wf(self) -> bool {
        &&& byte_len(self.title@) <= TITLE_LENGTH
        &&& byte_len(self.description@) <= DESCRIPTION_LENGTH
        &&& self.amount_goal >= 1
        &&& self.goal_expires_at > self.created_at
        &&& self.contribution_id_counter <= self.amount_collected
    }

    /// The project still accepts operations.
    pub open spec fn is_open(self) -> bool {
        self.closed_at is None
    }

    /// The claim gate: the goal has been collected or the expiry has passed.
    pub open spec fn claimable(self, now: i64) -> bool {
        self.amount_collected >= self.amount_goal || now >= self.goal_expires_at
    }
}

/// Validates the inputs and returns a fresh open project: nothing collected,
/// counter at zero, not closed, created at `now`. Each validation failure
/// names the offending input and creates nothing.
pub fn initialize_project(
    owner: u64,
    title: String,
    description: String,
    amount_goal: u64,
    goal_expires_at: i64,
    now: i64,
) -> (r: Result<Project, CrowdfundingError>)
    ensures
        byte_len(title@) > TITLE_LENGTH ==> r == Err::<Project, CrowdfundingError>(
            CrowdfundingError::TitleTooLong,
        ),
        byte_len(title@) <= TITLE_LENGTH && byte_len(description@) > DESCRIPTION_LENGTH ==> r
            == Err::<Project, CrowdfundingError>(CrowdfundingError::DescriptionTooLong),
        byte_len(title@) <= TITLE_LENGTH && byte_len(description@) <= DESCRIPTION_LENGTH
            && amount_goal == 0 ==> r == Err::<Project, CrowdfundingError>(
            CrowdfundingError::GoalMustBeGreaterThanZero,
        ),
        byte_len(title@) <= TITLE_LENGTH && byte_len(description@) <= DESCRIPTION_LENGTH
            && amount_goal >= 1 && goal_expires_at <= now ==> r == Err::<
            Project,
            CrowdfundingError,
        >(CrowdfundingError::ExpiresAtMustBeGreaterThanNow),
        r is Ok <==> byte_len(title@) <= TITLE_LENGTH && byte_len(description@)
            <= DESCRIPTION_LENGTH && amount_goal >= 1 && goal_expires_at > now,
        r is Ok ==> r == Ok::<Project, CrowdfundingError>(
            Project {
                owner,
                title,
                description,
                amount_goal,
                amount_collected: 0,
                goal_expires_at,
                closed_at: None,
                created_at: now,
                contribution_id_counter: 0,
            },
        ),
        r is Ok ==> r->Ok_0.wf(),
{
    if byte_length(title.as_str()) > TITLE_LENGTH {
        return Err(CrowdfundingError::TitleTooLong);
    }
    if byte_length(description.as_str()) > DESCRIPTION_LENGTH {
        return Err(CrowdfundingError::DescriptionTooLong);
    }
    if amount_goal == 0 {
        return Err(CrowdfundingError::GoalMustBeGreaterThanZero);
    }
    if goal_expires_at <= now {
        return Err(CrowdfundingError::ExpiresAtMustBeGreaterThanNow);
    }
    Ok(
        Project {
            owner,
            title,
            description,
            amount_goal,
            amount_collected: 0,
            goal_expires_at,
            closed_at: None,
            created_at: now,
            contribution_id_counter: 0,
        },
    )
}

/// One request against a project, with everything the host supplies for it.
/// `step_project` gives the meaning of applying it.
pub enum ProjectOp {
    Contribute { project_id: u64, contributor: u64, amount: u64, now: i64 },
    ClaimCollected { owner: u64, now: i64, pool_balance: u64, rent_reserve: u64 },
}

/// The project state after one operation: changed exactly as the successful
/// operation commits it, and untouched whenever the operation fails.
pub open spec fn step_project(p: Project, op: ProjectOp) -> Project {
    match op {
        ProjectOp::Contribute { project_id, contributor, amount, now } => {
            if p.is_open() && amount >= 1 && p.amount_collected + amount <= u64::MAX {
                Project {
                    amount_collected: (p.amount_collected + amount) as u64,
                    contribution_id_counter: (p.contribution_id_counter + 1) as u64,
                    ..p
                }
            } else {
                p
            }
        },
        ProjectOp::ClaimCollected { owner, now, pool_balance, rent_reserve } => {
            if p.is_open() && p.claimable(now) && pool_balance > rent_reserve {
                Project { closed_at: Some(now), ..p }
            } else {
                p
            }
        },
    }
}

/// The project state after a whole sequence of operations, applied in order.
pub open spec fn run_project(p: Project, ops: Seq<ProjectOp>) -> Project
    decreases ops.len(),
{
    if ops.len() == 0 {
        p
    } else {
        run_project(step_project(p, ops[0]), ops.subrange(1, ops.len() as int))
    }
}

/// Once `closed_at` is set the project is terminal: no sequence of further
/// contribute or claim operations changes anything — in particular the
/// collected total stays put and the project never re-opens.
pub proof fn lemma_closed_is_terminal(p: Project, ops: Seq<ProjectOp>)
    requires
        p.closed_at is Some,
    ensures
        run_project(p, ops) == p,
        run_project(p, ops).amount_collected == p.amount_collected,
        run_project(p, ops).closed_at == p.closed_at,
    decreases ops.len(),
{
    if ops.len() > 0 {
        assert(step_project(p, ops[0]) == p);
        lemma_closed_is_terminal(p, ops.subrange(1, ops.len() as int));
    }
}

/// Appends one funding event: legal only while the project is open, for a
/// positive amount whose addition to the collected total fits the balance
/// width. On success the collected total grows by `amount`, the counter by
/// one, and the returned record carries the pre-increment counter as its
/// sequence id; the host then moves `amount` from the contributor to the
/// pool. Any failure leaves the project unchanged and creates no record.
pub fn contribute(
    project: &mut Project,
    project_id: u64,
    contributor: u64,
    amount: u64,
    now: i64,
) -> (r: Result<Contribution, CrowdfundingError>)
    requires
        old(project).wf(),
    ensures
        final(project).wf(),
        *final(project) == step_project(
            *old(project),
            ProjectOp::Contribute { project_id, contributor, amount, now },
        ),
        amount == 0 ==> r == Err::<Contribution, CrowdfundingError>(
            CrowdfundingError::AmountMustBeGreaterThanZero,
        ),
        amount >= 1 && !old(project).is_open() ==> r == Err::<Contribution, CrowdfundingError>(
            CrowdfundingError::AlreadyClosed,
        ),
        amount >= 1 && old(project).is_open() && old(project).amount_collected + amount > u64::MAX
            ==> r == Err::<Contribution, CrowdfundingError>(CrowdfundingError::Overflow),
        r is Err ==> *final(project) == *old(project),
        r is Ok <==> amount >= 1 && old(project).is_open() && old(project).amount_collected
            + amount <= u64::MAX,
        r is Ok ==> {
            &&& r == Ok::<Contribution, CrowdfundingError>(
                Contribution {
                    contributor,
                    project: project_id,
                    amount,
                    created_at: now,
                    sequence: old(project).contribution_id_counter,
                },
            )
            &&& final(project).amount_collected == old(project).amount_collected + amount
            &&& final(project).contribution_id_counter == old(project).contribution_id_counter + 1
        },
{
    if amount == 0 {
        return Err(CrowdfundingError::AmountMustBeGreaterThanZero);
    }
    if project.closed_at.is_some() {
        return Err(CrowdfundingError::AlreadyClosed);
    }
    match add_checked(project.amount_collected, amount) {
        Ok(new_collected) => {
            let record = Contribution {
                contributor,
                project: project_id,
                amount,
                created_at: now,
                sequence: project.contribution_id_counter,
            };
            project.contribution_id_counter = project.contribution_id_counter + 1;
            project.amount_collected = new_collected;
            Ok(record)
        },
        Err(_) => Err(CrowdfundingError::Overflow),
    }
}

/// Drains the pool to the owner and closes the project for good. Legal only
/// while the project is open, once the goal has been collected or the expiry
/// has passed, and only if the pooled balance exceeds the storage host's
/// reserve (`rent_reserve`, the floor that keeps the record alive). On
/// success `closed_at` is stamped with `now` and the collected total is
/// returned for the host to transfer to `owner`. Any failure leaves the
/// project unchanged and open.
pub fn claim_collected(
    project: &mut Project,
    owner: u64,
    now: i64,
    pool_balance: u64,
    rent_reserve: u64,
) -> (r: Result<u64, CrowdfundingError>)
    ensures
        old(project).wf() ==> final(project).wf(),
        *final(project) == step_project(
            *old(project),
            ProjectOp::ClaimCollected { owner, now, pool_balance, rent_reserve },
        ),
        !old(project).is_open() ==> r == Err::<u64, CrowdfundingError>(
            CrowdfundingError::AlreadyClosed,
        ),
        old(project).is_open() && !old(project).claimable(now) ==> r == Err::<
            u64,
            CrowdfundingError,
        >(CrowdfundingError::TooEarlyToClaim),
        old(project).is_open() && old(project).claimable(now) && pool_balance <= rent_reserve ==> r
            == Err::<u64, CrowdfundingError>(CrowdfundingError::InsufficientFundsToClaim),
        r is Err ==> *final(project) == *old(project),
        r is Ok <==> old(project).is_open() && old(project).claimable(now) && pool_balance
            > rent_reserve,
        r is Ok ==> {
            &&& r == Ok::<u64, CrowdfundingError>(old(project).amount_collected)
            &&& final(project).closed_at == Some(now)
            &&& final(project).amount_collected == old(project).amount_collected
        },
{
    if project.closed_at.is_some() {
        return Err(CrowdfundingError::AlreadyClosed);
    }
    if !(project.amount_collected >= project.amount_goal || now >= project.goal_expires_at) {
        return Err(CrowdfundingError::TooEarlyToClaim);
    }
    if pool_balance <= rent_reserve {
        return Err(CrowdfundingError::InsufficientFundsToClaim);
    }
    project.closed_at = Some(now);
    Ok(project.amount_collected)
}

} // verus!
