//! Instructions on the accounts of the liquidity program.
use crate::errors::ErrorCodes;
use crate::liquidity::state::{AuthorizationList, AuthorizationListView, Liquidity};
use anchor_lang::prelude::Pubkey;
use vstd::prelude::*;

verus! {

/// What a request of `signer` to set the status of the protocol makes of it.
///
/// The signer must be an authorized user; the authority of the protocol has no say of its
/// own. A request for the status that the protocol has is refused.
pub open spec fn changing_status(
    liquidity: Liquidity,
    auth_list: AuthorizationListView,
    signer: Pubkey,
    status: bool,
) -> Result<Liquidity, ErrorCodes> {
    if !auth_list.auth_users.contains(signer) {
        Err(ErrorCodes::OnlyAuth)
    } else if liquidity.status == status {
        Err(ErrorCodes::StatusAlreadySet)
    } else {
        Ok(Liquidity { status, ..liquidity })
    }
}

/// What an authorization list account holds, where it exists.
pub open spec fn listed(auth_list: Option<AuthorizationList>) -> Option<AuthorizationListView> {
    match auth_list {
        Some(list) => Some(list@),
        None => None,
    }
}

/// What setting up the protocol makes of its two accounts, each of which may exist or not.
///
/// There is one account of each kind, and only accounts that do not exist yet can be
/// created. `authority` gets the main authority and is the first on the authorization
/// list, in both roles.
pub open spec fn setting_up(
    liquidity: Option<Liquidity>,
    auth_list: Option<AuthorizationListView>,
    authority: Pubkey,
    revenue_collector: Pubkey,
    bump: u8,
) -> Result<(Liquidity, AuthorizationListView), ErrorCodes> {
    if liquidity is Some || auth_list is Some {
        Err(ErrorCodes::AccountAlreadyInitialized)
    } else {
        Ok(
            (
                Liquidity::initialized(authority, revenue_collector, bump),
                AuthorizationListView::empty().admitting(authority),
            ),
        )
    }
}

/// Sets up the protocol: creates its two accounts and initializes them. Where one of them
/// exists, both are left as they were and [`ErrorCodes::AccountAlreadyInitialized`] comes
/// back.
pub fn init_liquidity(
    liquidity: &mut Option<Liquidity>,
    auth_list: &mut Option<AuthorizationList>,
    authority: Pubkey,
    revenue_collector: Pubkey,
    bump: u8,
) -> (res: Result<(), ErrorCodes>)
    ensures
        match setting_up(
            *old(liquidity),
            listed(*old(auth_list)),
            authority,
            revenue_collector,
            bump,
        ) {
            Ok((state, list)) => {
                &&& res is Ok
                &&& *final(liquidity) == Some(state)
                &&& listed(*final(auth_list)) == Some(list)
            },
            Err(error) => {
                &&& res == Err::<(), ErrorCodes>(error)
                &&& *final(liquidity) == *old(liquidity)
                &&& *final(auth_list) == *old(auth_list)
            },
        },
        res is Ok <==> *old(liquidity) is None && *old(auth_list) is None,
        res is Err ==> {
            &&& res == Err::<(), ErrorCodes>(ErrorCodes::AccountAlreadyInitialized)
            &&& *final(liquidity) == *old(liquidity)
            &&& *final(auth_list) == *old(auth_list)
        },
        res is Ok ==> {
            &&& *final(liquidity) matches Some(state)
            &&& state.authority == authority
            &&& state.revenue_collector == revenue_collector
            &&& !state.status
            &&& state.bump == bump
        },
        res is Ok ==> {
            &&& *final(auth_list) matches Some(list)
            &&& list.auth_users@ == seq![authority]
            &&& list.guardians@ == seq![authority]
            &&& list.user_classes@.len() == 0
        },
{
    if liquidity.is_some() || auth_list.is_some() {
        return Err(ErrorCodes::AccountAlreadyInitialized);
    }
    // The fresh accounts; `init` then sets what they start with.
    let mut state = Liquidity { authority, revenue_collector, status: false, bump };
    let mut list = AuthorizationList {
        auth_users: Vec::new(),
        guardians: Vec::new(),
        user_classes: Vec::new(),
    };
    state.init(authority, revenue_collector, bump)?;
    list.init(authority)?;
    *liquidity = Some(state);
    *auth_list = Some(list);
    Ok(())
}

/// Locks (`true`) or unlocks (`false`) the protocol at the request of `signer`. A request
/// that is refused leaves the protocol as it was.
pub fn change_status(
    liquidity: &mut Liquidity,
    auth_list: &AuthorizationList,
    signer: &Pubkey,
    status: bool,
) -> (res: Result<(), ErrorCodes>)
    ensures
        match changing_status(*old(liquidity), auth_list@, *signer, status) {
            Ok(changed) => res is Ok && *final(liquidity) == changed,
            Err(error) => res == Err::<(), ErrorCodes>(error) && *final(liquidity) == *old(
                liquidity,
            ),
        },
        res is Ok <==> auth_list.auth_users@.contains(*signer) && old(liquidity).status != status,
        res == Err::<(), ErrorCodes>(ErrorCodes::OnlyAuth) <==> !auth_list.auth_users@.contains(
            *signer,
        ),
        res == Err::<(), ErrorCodes>(ErrorCodes::StatusAlreadySet)
            <==> auth_list.auth_users@.contains(*signer) && old(liquidity).status == status,
        final(liquidity).status == if res is Ok {
            status
        } else {
            old(liquidity).status
        },
        final(liquidity).authority == old(liquidity).authority,
        final(liquidity).revenue_collector == old(liquidity).revenue_collector,
        final(liquidity).bump == old(liquidity).bump,
{
    if !auth_list.is_auth_user(signer) {
        return Err(ErrorCodes::OnlyAuth);
    }
    if liquidity.status == status {
        return Err(ErrorCodes::StatusAlreadySet);
    }
    liquidity.status = status;
    Ok(())
}

/// What a run of requests, each of a signer for a status, makes of the protocol; a request
/// that is refused changes nothing.
pub open spec fn after_requests(
    liquidity: Liquidity,
    auth_list: AuthorizationListView,
    requests: Seq<(Pubkey, bool)>,
) -> Liquidity
    decreases requests.len(),
{
    if requests.len() == 0 {
        liquidity
    } else {
        let before = after_requests(liquidity, auth_list, requests.drop_last());
        match changing_status(before, auth_list, requests.last().0, requests.last().1) {
            Ok(changed) => changed,
            Err(_) => before,
        }
    }
}

/// An account that does not exist lists nothing; one that exists lists what its vectors
/// hold.
pub proof fn law_listed_is_what_the_account_holds(list: AuthorizationList)
    ensures
        listed(None) is None,
        listed(Some(list)) matches Some(view) && {
            &&& view.auth_users == list.auth_users@
            &&& view.guardians == list.guardians@
            &&& view.user_classes == list.user_classes@
        },
{
}

/// Setup stores what it is given, field by field, and leaves the protocol unlocked.
pub proof fn law_setup_stores_what_was_given(
    authority: Pubkey,
    revenue_collector: Pubkey,
    bump: u8,
)
    ensures
        setting_up(None, None, authority, revenue_collector, bump) matches Ok((state, list)) && {
            &&& state.authority == authority
            &&& state.revenue_collector == revenue_collector
            &&& state.bump == bump
            &&& !state.status
        },
{
}

/// The list that setup yields has the authority as its only authorized user and as its
/// only guardian, once each, and no user classes.
pub proof fn law_setup_lists_the_authority_alone(
    authority: Pubkey,
    revenue_collector: Pubkey,
    bump: u8,
)
    ensures
        setting_up(None, None, authority, revenue_collector, bump) matches Ok((state, list)) && {
            &&& list.auth_users.len() == 1
            &&& list.auth_users[0] == authority
            &&& list.guardians.len() == 1
            &&& list.guardians[0] == authority
            &&& list.user_classes.len() == 0
        },
{
}

/// Setup is refused exactly where one of the accounts exists, whatever it holds and
/// whatever setup is given, and always for that reason.
pub proof fn law_setup_is_refused_where_an_account_exists(
    liquidity: Option<Liquidity>,
    auth_list: Option<AuthorizationListView>,
    authority: Pubkey,
    revenue_collector: Pubkey,
    bump: u8,
)
    ensures
        setting_up(liquidity, auth_list, authority, revenue_collector, bump) is Ok <==> liquidity
            is None && auth_list is None,
        setting_up(liquidity, auth_list, authority, revenue_collector, bump) matches Err(error)
            ==> error == ErrorCodes::AccountAlreadyInitialized,
{
}

/// A request goes through exactly where the signer is an authorized user and asks for the
/// status that the protocol does not have. The protocol then has the status asked for,
/// and nothing else has changed.
pub proof fn law_status_change_does_what_was_asked(
    liquidity: Liquidity,
    auth_list: AuthorizationListView,
    signer: Pubkey,
    status: bool,
)
    ensures
        changing_status(liquidity, auth_list, signer, status) is Ok <==> (exists|i: int|
            0 <= i < auth_list.auth_users.len() && #[trigger] auth_list.auth_users[i] == signer)
            && liquidity.status != status,
        changing_status(liquidity, auth_list, signer, status) matches Ok(changed) ==> {
            &&& changed.status == status
            &&& changed.locked() == status
            &&& changed.authority == liquidity.authority
            &&& changed.revenue_collector == liquidity.revenue_collector
            &&& changed.bump == liquidity.bump
        },
        changing_status(liquidity, auth_list, signer, status) matches Err(error) ==> error == if (
        exists|i: int|
            0 <= i < auth_list.auth_users.len() && #[trigger] auth_list.auth_users[i] == signer) {
            ErrorCodes::StatusAlreadySet
        } else {
            ErrorCodes::OnlyAuth
        },
{
}

/// Guardians and user classes have no part in who may change the status, and neither have
/// the addresses and the bump of the protocol.
pub proof fn law_only_status_and_authorized_users_decide(
    liquidity: Liquidity,
    other: Liquidity,
    auth_list: AuthorizationListView,
    other_list: AuthorizationListView,
    signer: Pubkey,
    status: bool,
)
    requires
        liquidity.status == other.status,
        auth_list.auth_users == other_list.auth_users,
    ensures
        changing_status(liquidity, auth_list, signer, status) is Ok == changing_status(
            other,
            other_list,
            signer,
            status,
        ) is Ok,
        changing_status(liquidity, auth_list, signer, status) matches Err(error)
            ==> changing_status(other, other_list, signer, status) == Err::<Liquidity, ErrorCodes>(
            error,
        ),
{
}

/// Whoever is not an authorized user is refused, whatever the request and the state.
pub proof fn law_only_authorized_users_change_the_status(
    liquidity: Liquidity,
    auth_list: AuthorizationListView,
    signer: Pubkey,
    status: bool,
)
    ensures
        changing_status(liquidity, auth_list, signer, status) == Err::<Liquidity, ErrorCodes>(
            ErrorCodes::OnlyAuth,
        ) <==> !auth_list.auth_users.contains(signer),
{
}

/// All authorized users have the same power over the status, in both directions; it does
/// not matter which of them is the authority of the protocol.
pub proof fn law_authorized_users_are_equals(
    liquidity: Liquidity,
    auth_list: AuthorizationListView,
    one: Pubkey,
    other: Pubkey,
    status: bool,
)
    requires
        auth_list.auth_users.contains(one),
        auth_list.auth_users.contains(other),
    ensures
        changing_status(liquidity, auth_list, one, status) == changing_status(
            liquidity,
            auth_list,
            other,
            status,
        ),
        changing_status(liquidity, auth_list, one, !liquidity.status) is Ok,
{
}

/// What one authorized user does to the status, any authorized user can undo, and the
/// protocol is then as it was.
pub proof fn law_a_status_change_can_be_undone(
    liquidity: Liquidity,
    auth_list: AuthorizationListView,
    one: Pubkey,
    other: Pubkey,
    status: bool,
)
    requires
        auth_list.auth_users.contains(other),
    ensures
        changing_status(liquidity, auth_list, one, status) matches Ok(changed) ==> changing_status(
            changed,
            auth_list,
            other,
            !status,
        ) == Ok::<Liquidity, ErrorCodes>(liquidity),
{
}

/// After any run of requests the authority, the revenue collector and the bump are those
/// from before, and the status is what the last request of an authorized user asked for.
pub proof fn law_last_authorized_request_decides(
    liquidity: Liquidity,
    auth_list: AuthorizationListView,
    requests: Seq<(Pubkey, bool)>,
)
    ensures
        ({
            let after = after_requests(liquidity, auth_list, requests);
            &&& after == Liquidity { status: after.status, ..liquidity }
            &&& forall|i: int|
                #![trigger requests[i]]
                0 <= i < requests.len() && auth_list.auth_users.contains(requests[i].0) && (
                forall|j: int|
                    i < j < requests.len() ==> !auth_list.auth_users.contains(
                        (#[trigger] requests[j]).0,
                    )) ==> after.status == requests[i].1
            &&& (forall|i: int|
                0 <= i < requests.len() ==> !auth_list.auth_users.contains(
                    (#[trigger] requests[i]).0,
                )) ==> after == liquidity
        }),
    decreases requests.len(),
{
    if requests.len() > 0 {
        let earlier = requests.drop_last();
        law_last_authorized_request_decides(liquidity, auth_list, earlier);
        let before = after_requests(liquidity, auth_list, earlier);
        let after = after_requests(liquidity, auth_list, requests);
        assert forall|i: int|
            #![trigger requests[i]]
            0 <= i < requests.len() && auth_list.auth_users.contains(requests[i].0) && (forall|j: int|
                i < j < requests.len() ==> !auth_list.auth_users.contains(
                    (#[trigger] requests[j]).0,
                )) implies after.status == requests[i].1 by {
            if i < requests.len() - 1 {
                assert(!auth_list.auth_users.contains(requests[requests.len() - 1].0));
                assert(earlier[i] == requests[i]);
                assert forall|j: int| i < j < earlier.len() implies !auth_list.auth_users.contains(
                    (#[trigger] earlier[j]).0,
                ) by {
                    assert(earlier[j] == requests[j]);
                }
            }
        }
        if forall|i: int|
            0 <= i < requests.len() ==> !auth_list.auth_users.contains(
                (#[trigger] requests[i]).0,
            ) {
            assert forall|i: int|
                0 <= i < earlier.len() implies !auth_list.auth_users.contains(
                (#[trigger] earlier[i]).0,
            ) by {
                assert(earlier[i] == requests[i]);
            }
            assert(!auth_list.auth_users.contains(requests[requests.len() - 1].0));
        }
    }
}

/// The protocol is set up once: after that, every further attempt is refused, whoever it
/// would make the authority.
pub proof fn law_protocol_is_set_up_once(
    liquidity: Option<Liquidity>,
    auth_list: Option<AuthorizationListView>,
    authority: Pubkey,
    revenue_collector: Pubkey,
    bump: u8,
    later_authority: Pubkey,
    later_collector: Pubkey,
    later_bump: u8,
)
    ensures
        setting_up(liquidity, auth_list, authority, revenue_collector, bump) matches Ok(
            (state, list),
        ) ==> setting_up(Some(state), Some(list), later_authority, later_collector, later_bump)
            == Err::<(Liquidity, AuthorizationListView), ErrorCodes>(
            ErrorCodes::AccountAlreadyInitialized,
        ),
{
}

/// Right after the protocol has been set up, its authority can lock it, and every other
/// signer is refused.
pub proof fn law_initial_authority_alone_changes_the_status(
    authority: Pubkey,
    revenue_collector: Pubkey,
    bump: u8,
    signer: Pubkey,
    status: bool,
)
    ensures
        setting_up(None, None, authority, revenue_collector, bump) matches Ok((state, list)) && {
            &&& changing_status(state, list, authority, true) == Ok::<Liquidity, ErrorCodes>(
                Liquidity { status: true, ..state },
            )
            &&& signer != authority ==> changing_status(state, list, signer, status) == Err::<
                Liquidity,
                ErrorCodes,
            >(ErrorCodes::OnlyAuth)
        },
{
    crate::liquidity::state::law_first_authority_is_alone(authority);
    assert(seq![authority][0] == authority);
}

} // verus!
