//! The accounts of the liquidity program.
use crate::errors::ErrorCodes;
use crate::keys::same_key;
use crate::liquidity::constants::MAX_AUTH_COUNT;
use crate::math::safe_add;
use anchor_lang::prelude::Pubkey;
use vstd::prelude::*;

verus! {

/// The global state of the protocol.
pub struct Liquidity {
    /// Main liquidity authority, can be a governance account or a multisig.
    pub authority: Pubkey,
    /// Address that collects fees.
    pub revenue_collector: Pubkey,
    /// `true` = locked, `false` = unlocked.
    pub status: bool,
    pub bump: u8,
}

impl Liquidity {
    /// The state right after initialization: the given addresses, unlocked.
    pub open spec fn initialized(
        authority: Pubkey,
        revenue_collector: Pubkey,
        bump: u8,
    ) -> Liquidity {
        Liquidity { authority, revenue_collector, status: false, bump }
    }

    /// The protocol is locked.
    pub open spec fn locked(self) -> bool {
        self.status
    }

    /// Whether the protocol is locked.
    pub fn is_locked(&self) -> (locked: bool)
        ensures
            locked == self.status,
            locked == self.locked(),
    {
        self.status
    }

    /// Sets every field, whatever the account held before, and leaves the protocol
    /// unlocked. Never fails.
    pub fn init(&mut self, authority: Pubkey, revenue_collector: Pubkey, bump: u8) -> (res: Result<
        (),
        ErrorCodes,
    >)
        ensures
            res is Ok,
            *final(self) == Liquidity::initialized(authority, revenue_collector, bump),
            final(self).authority == authority,
            final(self).revenue_collector == revenue_collector,
            !final(self).status,
            final(self).bump == bump,
    {
        self.authority = authority;
        self.revenue_collector = revenue_collector;
        self.status = false;
        self.bump = bump;

        Ok(())
    }
}

impl Clone for Liquidity {
    fn clone(&self) -> (copy: Self)
        ensures
            copy == *self,
    {
        Liquidity {
            authority: self.authority,
            revenue_collector: self.revenue_collector,
            status: self.status,
            bump: self.bump,
        }
    }
}

/// The class that an address belongs to.
pub struct UserClass {
    pub addr: Pubkey,
    pub class: u8,
}

impl Clone for UserClass {
    fn clone(&self) -> (copy: Self)
        ensures
            copy == *self,
    {
        UserClass { addr: self.addr, class: self.class }
    }
}

/// Who may act on the protocol.
pub struct AuthorizationList {
    /// Authorized users, at most [`MAX_AUTH_COUNT`].
    pub auth_users: Vec<Pubkey>,
    /// Guardians, at most [`MAX_AUTH_COUNT`].
    pub guardians: Vec<Pubkey>,
    /// User classes.
    pub user_classes: Vec<UserClass>,
}

/// What an [`AuthorizationList`] holds.
#[verifier::ext_equal]
pub struct AuthorizationListView {
    pub auth_users: Seq<Pubkey>,
    pub guardians: Seq<Pubkey>,
    pub user_classes: Seq<UserClass>,
}

impl View for AuthorizationList {
    type V = AuthorizationListView;

    open spec fn view(&self) -> AuthorizationListView {
        AuthorizationListView {
            auth_users: self.auth_users@,
            guardians: self.guardians@,
            user_classes: self.user_classes@,
        }
    }
}

impl AuthorizationListView {
    /// A list that nobody is on.
    pub open spec fn empty() -> AuthorizationListView {
        AuthorizationListView {
            auth_users: Seq::empty(),
            guardians: Seq::empty(),
            user_classes: Seq::empty(),
        }
    }

    /// The list with `authority` appended to the authorized users and to the guardians.
    pub open spec fn admitting(self, authority: Pubkey) -> AuthorizationListView {
        AuthorizationListView {
            auth_users: self.auth_users.push(authority),
            guardians: self.guardians.push(authority),
            user_classes: self.user_classes,
        }
    }

    /// The account has room for the authorized users and the guardians.
    pub open spec fn fits(self) -> bool {
        &&& self.auth_users.len() <= MAX_AUTH_COUNT
        &&& self.guardians.len() <= MAX_AUTH_COUNT
    }
}

impl AuthorizationList {
    /// Appends `authority` to the authorized users and to the guardians. Never fails.
    pub fn init(&mut self, authority: Pubkey) -> (res: Result<(), ErrorCodes>)
        ensures
            res is Ok,
            final(self)@ == old(self)@.admitting(authority),
            final(self).auth_users@ == old(self).auth_users@.push(authority),
            final(self).guardians@ == old(self).guardians@.push(authority),
            final(self).user_classes@ == old(self).user_classes@,
    {
        self.auth_users.push(authority);
        self.guardians.push(authority);

        Ok(())
    }

    /// Whether `key` is listed among the authorized users.
    pub fn is_auth_user(&self, key: &Pubkey) -> (listed: bool)
        ensures
            listed == self@.auth_users.contains(*key),
            listed <==> exists|i: int|
                0 <= i < self.auth_users@.len() && #[trigger] self.auth_users@[i] == *key,
    {
        let mut i: usize = 0;
        while i < self.auth_users.len()
            invariant
                i <= self.auth_users.len(),
                forall|j: int| 0 <= j < i ==> self.auth_users@[j] != *key,
            decreases self.auth_users.len() - i,
        {
            if same_key(&self.auth_users[i], key) {
                assert(self.auth_users@[i as int] == *key);
                return true;
            }
            i += 1;
        }
        false
    }
}

impl Clone for AuthorizationList {
    fn clone(&self) -> (copy: Self)
        ensures
            copy@ == self@,
            copy.auth_users@ == self.auth_users@,
            copy.guardians@ == self.guardians@,
            copy.user_classes@ == self.user_classes@,
    {
        AuthorizationList {
            auth_users: self.auth_users.clone(),
            guardians: self.guardians.clone(),
            user_classes: self.user_classes.clone(),
        }
    }
}

/// What a user may claim of one token.
#[derive(Clone, Copy)]
pub struct UserClaim {
    pub user: Pubkey,
    pub amount: u64,
    pub mint: Pubkey,
}

impl UserClaim {
    /// The claim with another owner and token; what may be claimed stays.
    pub open spec fn owned_by(self, user: Pubkey, mint: Pubkey) -> UserClaim {
        UserClaim { user, mint, ..self }
    }

    /// The claim with another amount; owner and token stay.
    pub open spec fn with_amount(self, amount: u64) -> UserClaim {
        UserClaim { amount, ..self }
    }

    /// What may be claimed.
    pub open spec fn claimable(self) -> int {
        self.amount as int
    }

    /// What approving `amount` makes of the claim: the amount grows by it, or, where the
    /// sum does not fit, the approval is refused.
    pub open spec fn approving(self, amount: u64) -> Result<UserClaim, ErrorCodes> {
        if self.amount + amount <= u64::MAX {
            Ok(self.with_amount((self.amount + amount) as u64))
        } else {
            Err(ErrorCodes::MathError)
        }
    }

    /// What approving each of `amounts` in turn makes of the claim; the first approval
    /// that is refused ends the run.
    pub open spec fn approving_all(self, amounts: Seq<u64>) -> Result<UserClaim, ErrorCodes>
        decreases amounts.len(),
    {
        if amounts.len() == 0 {
            Ok(self)
        } else {
            match self.approving_all(amounts.drop_last()) {
                Ok(claim) => claim.approving(amounts.last()),
                Err(error) => Err(error),
            }
        }
    }

    /// Sets the owner and the token. The amount is left alone. Never fails.
    pub fn init(&mut self, user: Pubkey, mint: Pubkey) -> (res: Result<(), ErrorCodes>)
        ensures
            res is Ok,
            *final(self) == old(self).owned_by(user, mint),
            final(self).user == user,
            final(self).mint == mint,
            final(self).amount == old(self).amount,
    {
        self.user = user;
        self.mint = mint;
        Ok(())
    }

    /// What may be claimed.
    pub fn balance(&self) -> (amount: u64)
        ensures
            amount == self.amount,
            amount == self.claimable(),
    {
        self.amount
    }

    /// Sets what may be claimed to zero. Never fails.
    pub fn reset_balance(&mut self) -> (res: Result<(), ErrorCodes>)
        ensures
            res is Ok,
            *final(self) == old(self).with_amount(0),
            final(self).amount == 0,
            final(self).user == old(self).user,
            final(self).mint == old(self).mint,
    {
        self.amount = 0;
        Ok(())
    }

    /// Adds `amount` to what may be claimed. Where the sum does not fit, the claim is
    /// left as it was and [`ErrorCodes::MathError`] comes back.
    pub fn approve(&mut self, amount: u64) -> (res: Result<(), ErrorCodes>)
        ensures
            match old(self).approving(amount) {
                Ok(claim) => res is Ok && *final(self) == claim,
                Err(error) => res == Err::<(), ErrorCodes>(error) && *final(self) == *old(self),
            },
            res is Ok <==> old(self).amount + amount <= u64::MAX,
            res is Err ==> res == Err::<(), ErrorCodes>(ErrorCodes::MathError),
            final(self).amount == old(self).amount + if res is Ok {
                amount as int
            } else {
                0
            },
            final(self).user == old(self).user,
            final(self).mint == old(self).mint,
    {
        match safe_add(self.amount, amount) {
            Ok(sum) => {
                self.amount = sum;
                Ok(())
            },
            Err(error) => Err(error),
        }
    }
}

/// The sum of `amounts`.
pub open spec fn total(amounts: Seq<u64>) -> nat
    decreases amounts.len(),
{
    if amounts.len() == 0 {
        0
    } else {
        total(amounts.drop_last()) + amounts.last() as nat
    }
}

/// Initialization stores what it is given, field by field, and leaves the protocol
/// unlocked.
pub proof fn law_initialized_state_holds_what_was_given(
    authority: Pubkey,
    revenue_collector: Pubkey,
    bump: u8,
)
    ensures
        Liquidity::initialized(authority, revenue_collector, bump).authority == authority,
        Liquidity::initialized(authority, revenue_collector, bump).revenue_collector
            == revenue_collector,
        !Liquidity::initialized(authority, revenue_collector, bump).status,
        Liquidity::initialized(authority, revenue_collector, bump).bump == bump,
{
}

/// Two initializations give the same state only where they were given the same: nothing
/// that initialization is told gets lost.
pub proof fn law_initialization_loses_nothing(
    authority: Pubkey,
    revenue_collector: Pubkey,
    bump: u8,
    other_authority: Pubkey,
    other_collector: Pubkey,
    other_bump: u8,
)
    ensures
        Liquidity::initialized(authority, revenue_collector, bump) == Liquidity::initialized(
            other_authority,
            other_collector,
            other_bump,
        ) <==> authority == other_authority && revenue_collector == other_collector && bump
            == other_bump,
{
}

/// A protocol is locked exactly where its status says so, and never right after
/// initialization.
pub proof fn law_locked_goes_by_the_status(
    liquidity: Liquidity,
    authority: Pubkey,
    revenue_collector: Pubkey,
    bump: u8,
)
    ensures
        liquidity.locked() <==> liquidity.status,
        !Liquidity::initialized(authority, revenue_collector, bump).locked(),
{
}

/// The balance reads back what was written: nothing after a reset, more by the approved
/// amount after an approval that goes through, and the same after initialization.
pub proof fn law_balance_reads_back_what_was_written(
    claim: UserClaim,
    user: Pubkey,
    mint: Pubkey,
    amount: u64,
)
    ensures
        claim.claimable() == claim.amount,
        claim.with_amount(0).claimable() == 0,
        claim.owned_by(user, mint).claimable() == claim.claimable(),
        claim.approving(amount) matches Ok(next) ==> next.claimable() == claim.claimable()
            + amount,
{
}

/// What a list holds are its three vectors, and a list is empty where all of them are.
pub proof fn law_view_holds_the_vectors(list: AuthorizationList)
    ensures
        list@.auth_users == list.auth_users@,
        list@.guardians == list.guardians@,
        list@.user_classes == list.user_classes@,
        list@ == AuthorizationListView::empty() <==> list.auth_users@.len() == 0
            && list.guardians@.len() == 0 && list.user_classes@.len() == 0,
{
    if list.auth_users@.len() == 0 && list.guardians@.len() == 0 && list.user_classes@.len() == 0 {
        assert(list@ =~= AuthorizationListView::empty());
    }
}

/// Admitting puts the authority last in both roles, once more than before; the members
/// from before keep their places, and the user classes stay.
pub proof fn law_admitting_appends(list: AuthorizationListView, authority: Pubkey)
    ensures
        list.admitting(authority).auth_users.len() == list.auth_users.len() + 1,
        list.admitting(authority).auth_users.last() == authority,
        forall|i: int|
            0 <= i < list.auth_users.len() ==> #[trigger] list.admitting(authority).auth_users[i]
                == list.auth_users[i],
        list.admitting(authority).guardians.len() == list.guardians.len() + 1,
        list.admitting(authority).guardians.last() == authority,
        forall|i: int|
            0 <= i < list.guardians.len() ==> #[trigger] list.admitting(authority).guardians[i]
                == list.guardians[i],
        list.admitting(authority).user_classes == list.user_classes,
{
}

/// Whoever an authorization list admits is an authorized user and a guardian; nobody who
/// was on the list is lost, nobody else gets on it, and the user classes stay.
pub proof fn law_admitting_adds_one_member(
    list: AuthorizationListView,
    authority: Pubkey,
    key: Pubkey,
)
    ensures
        list.admitting(authority).auth_users.contains(key) <==> key == authority
            || list.auth_users.contains(key),
        list.admitting(authority).guardians.contains(key) <==> key == authority
            || list.guardians.contains(key),
        list.admitting(authority).user_classes == list.user_classes,
{
    lemma_push_contains(list.auth_users, authority, key);
    lemma_push_contains(list.guardians, authority, key);
}

/// A list that admits its first authority holds that authority alone, once, in both
/// roles, and its account has room for it.
pub proof fn law_first_authority_is_alone(authority: Pubkey)
    ensures
        AuthorizationListView::empty().admitting(authority).auth_users == seq![authority],
        AuthorizationListView::empty().admitting(authority).guardians == seq![authority],
        AuthorizationListView::empty().admitting(authority).user_classes == Seq::<
            UserClass,
        >::empty(),
        AuthorizationListView::empty().admitting(authority).fits(),
{
}

/// A list with room for one more in both roles still fits its account afterwards.
pub proof fn law_admitting_below_the_limit_fits(list: AuthorizationListView, authority: Pubkey)
    ensures
        list.admitting(authority).fits() <==> list.auth_users.len() < MAX_AUTH_COUNT
            && list.guardians.len() < MAX_AUTH_COUNT,
{
}

/// A list fits exactly while neither role has more members than the account has room for.
pub proof fn law_fitting_is_about_both_roles(list: AuthorizationListView)
    ensures
        list.fits() <==> !(list.auth_users.len() > MAX_AUTH_COUNT) && !(list.guardians.len()
            > MAX_AUTH_COUNT),
{
}

/// An approval goes through exactly when the sum fits; the claim has then grown by exactly
/// the approved amount, and it has the owner and the token from before. A refusal is
/// reported as an overflow.
pub proof fn law_approval_grows_the_claim_by_the_amount(claim: UserClaim, amount: u64)
    ensures
        claim.approving(amount) is Ok <==> claim.amount + amount <= u64::MAX,
        claim.approving(amount) matches Ok(next) ==> {
            &&& next.amount - claim.amount == amount
            &&& next.user == claim.user
            &&& next.mint == claim.mint
        },
        claim.approving(amount) matches Err(error) ==> error == ErrorCodes::MathError,
{
}

/// Initialization of a claim stores the owner and the token that it is given and keeps the
/// amount; setting the amount stores it and keeps the owner and the token.
pub proof fn law_claim_holds_what_was_set(
    claim: UserClaim,
    user: Pubkey,
    mint: Pubkey,
    amount: u64,
)
    ensures
        claim.owned_by(user, mint).user == user,
        claim.owned_by(user, mint).mint == mint,
        claim.owned_by(user, mint).amount == claim.amount,
        claim.with_amount(amount).amount == amount,
        claim.with_amount(amount).user == claim.user,
        claim.with_amount(amount).mint == claim.mint,
{
}

/// The sum of amounts starts at nothing and grows with each amount by that amount.
pub proof fn law_total_grows_with_each_amount(amounts: Seq<u64>, amount: u64)
    ensures
        total(Seq::empty()) == 0,
        total(amounts.push(amount)) == total(amounts) + amount,
{
    assert(amounts.push(amount).drop_last() == amounts);
}

/// A run of approvals that goes through leaves an amount that exceeds the one from before
/// by the sum of what was approved; one more approval is then judged by that amount.
pub proof fn law_runs_of_approvals_continue(claim: UserClaim, amounts: Seq<u64>, amount: u64)
    ensures
        claim.approving_all(amounts) is Ok <==> claim.amount + total(amounts) <= u64::MAX,
        claim.approving_all(amounts) matches Ok(next) ==> {
            &&& next.amount - claim.amount == total(amounts)
            &&& next.user == claim.user
            &&& next.mint == claim.mint
            &&& claim.approving_all(amounts.push(amount)) == next.approving(amount)
        },
        claim.approving_all(amounts) matches Err(error) ==> {
            &&& error == ErrorCodes::MathError
            &&& claim.approving_all(amounts.push(amount)) is Err
        },
{
    law_approvals_add_up(claim, amounts);
    assert(amounts.push(amount).drop_last() == amounts);
}

/// A run of approvals adds up: it goes through exactly when the sum fits, and the claim
/// has then grown by that sum, with its owner and token unchanged.
pub proof fn law_approvals_add_up(claim: UserClaim, amounts: Seq<u64>)
    ensures
        claim.amount + total(amounts) <= u64::MAX ==> claim.approving_all(amounts) == Ok::<
            UserClaim,
            ErrorCodes,
        >(claim.with_amount((claim.amount + total(amounts)) as u64)),
        claim.amount + total(amounts) > u64::MAX ==> claim.approving_all(amounts) == Err::<
            UserClaim,
            ErrorCodes,
        >(ErrorCodes::MathError),
    decreases amounts.len(),
{
    if amounts.len() > 0 {
        law_approvals_add_up(claim, amounts.drop_last());
    }
}

/// The order of two approvals does not matter.
pub proof fn law_approvals_commute(claim: UserClaim, first: u64, second: u64)
    ensures
        claim.approving_all(seq![first, second]) == claim.approving_all(seq![second, first]),
{
    lemma_total_of_two(first, second);
    lemma_total_of_two(second, first);
    law_approvals_add_up(claim, seq![first, second]);
    law_approvals_add_up(claim, seq![second, first]);
}

/// After a reset, a claim holds what is approved next, whatever it held before.
pub proof fn law_reset_forgets_earlier_approvals(claim: UserClaim, amount: u64)
    ensures
        claim.with_amount(0).approving(amount) == Ok::<UserClaim, ErrorCodes>(
            claim.with_amount(amount),
        ),
{
}

/// Initialization of a claim and changes of its amount do not touch each other: the owner
/// and token that were set outlive every reset and approval, and the amount outlives
/// initialization.
pub proof fn law_owner_and_amount_are_independent(
    claim: UserClaim,
    user: Pubkey,
    mint: Pubkey,
    amount: u64,
)
    ensures
        claim.owned_by(user, mint).amount == claim.amount,
        claim.owned_by(user, mint).with_amount(amount) == claim.with_amount(amount).owned_by(
            user,
            mint,
        ),
        claim.owned_by(user, mint).with_amount(amount).user == user,
        claim.owned_by(user, mint).with_amount(amount).mint == mint,
        claim.approving(amount) matches Ok(next) ==> claim.owned_by(user, mint).approving(amount)
            == Ok::<UserClaim, ErrorCodes>(next.owned_by(user, mint)),
        claim.approving(amount) matches Err(error) ==> claim.owned_by(user, mint).approving(amount)
            == Err::<UserClaim, ErrorCodes>(error),
{
}

proof fn lemma_push_contains(keys: Seq<Pubkey>, added: Pubkey, key: Pubkey)
    ensures
        keys.push(added).contains(key) <==> key == added || keys.contains(key),
{
    assert(keys.push(added)[keys.len() as int] == added);
    if keys.contains(key) {
        let i = choose|i: int| 0 <= i < keys.len() && keys[i] == key;
        assert(keys.push(added)[i] == key);
    }
    if keys.push(added).contains(key) && key != added {
        let i = choose|i: int| 0 <= i < keys.push(added).len() && keys.push(added)[i] == key;
        assert(keys[i] == key);
    }
}

proof fn lemma_total_of_two(first: u64, second: u64)
    ensures
        total(seq![first, second]) == first + second,
{
    reveal_with_fuel(total, 3);
    assert(seq![first, second].drop_last() == seq![first]);
}

} // verus!
