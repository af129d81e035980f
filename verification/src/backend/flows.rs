//! The order in which two account handlers make their database, cache and mail calls, and what
//! each outcome leads to. The server performs each action and hands back its outcome as an event.
use vstd::prelude::*;

use crate::backend::handlers::{
    activated_role_of, activated_roles, activation_mail, activation_notices, is_activation_mail, is_activation_notices,
    ActivationMail, Notice,
};
use crate::common::date_format::NaiveTimestamp;
use crate::common::structs::{Claims, ImmortalError};
use crate::common::utils::{claims_outcome, jwt_decode, key_bytes};
use crate::token::{current_timestamp, hs256_claim_members};

verus! {

/// What the activation of an account does next.
pub enum ActivationAction<T> {
    /// Load the roles of user `id`.
    LoadRoles(i32),
    /// Give user `id` these roles.
    SaveRoles(i32, Vec<i32>),
    /// Load (and cache again) the information and privileges of user `id`.
    ReloadUser(i32),
    /// Answer the request.
    Answer(Result<T, ImmortalError>),
}

/// What came of an action of the activation of an account.
pub enum ActivationEvent<T> {
    RolesLoaded(Result<Vec<i32>, ImmortalError>),
    RolesSaved(Result<(), ImmortalError>),
    UserReloaded(Result<T, ImmortalError>),
}

/// The first action of an activation, from the outcome of reading its token: load the roles of
/// the user the token names, or answer with the token's error.
pub fn activation_begin<T>(claims: Result<Claims, ImmortalError>) -> (action: ActivationAction<T>)
    ensures
        match claims {
            Ok(c) => action matches ActivationAction::LoadRoles(id) && id == c.id,
            Err(e) => action matches ActivationAction::Answer(Err(e2)) && e2 == e,
        },
{
    match claims {
        Ok(c) => ActivationAction::LoadRoles(c.id),
        Err(e) => ActivationAction::Answer(Err(e)),
    }
}

/// The first action of an activation with the token `token`, read at the current time.
pub fn activation_start<T>(token: String) -> (action: ActivationAction<T>)
    ensures
        exists|now: u64| call_ensures(current_timestamp, (), now) && match #[trigger] claims_outcome(hs256_claim_members(token@, key_bytes()), now as int) {
            Ok(c) => action matches ActivationAction::LoadRoles(id) && id == c.id,
            Err(e) => action matches ActivationAction::Answer(Err(e2)) && e2 == e,
        },
{
    activation_begin(jwt_decode(token))
}

/// Whether `event` may follow the actions of an activation: a user's roles, once loaded, hold
/// at least one role.
pub open spec fn activation_event_ok<T>(event: &ActivationEvent<T>) -> bool {
    event matches ActivationEvent::RolesLoaded(Ok(roles)) ==> roles@.len() >= 1
}

/// The next action of the activation of user `id`, from what came of the last one: the loaded
/// roles are raised to the activated role and saved, a save is followed by reloading the user,
/// and the reloaded user is the answer. Any failure is the answer.
pub fn activation_step<T>(id: i32, event: ActivationEvent<T>) -> (action: ActivationAction<T>)
    requires
        activation_event_ok(&event),
    ensures
        match event {
            ActivationEvent::RolesLoaded(Ok(roles)) => action matches ActivationAction::SaveRoles(i, r)
                && i == id && r@ == seq![activated_role_of(roles@[0])],
            ActivationEvent::RolesSaved(Ok(())) => action matches ActivationAction::ReloadUser(i) && i == id,
            ActivationEvent::UserReloaded(Ok(info)) => action matches ActivationAction::Answer(Ok(a)) && a == info,
            ActivationEvent::RolesLoaded(Err(e)) => action matches ActivationAction::Answer(Err(e2)) && e2 == e,
            ActivationEvent::RolesSaved(Err(e)) => action matches ActivationAction::Answer(Err(e2)) && e2 == e,
            ActivationEvent::UserReloaded(Err(e)) => action matches ActivationAction::Answer(Err(e2)) && e2 == e,
        },
{
    match event {
        ActivationEvent::RolesLoaded(Ok(roles)) => ActivationAction::SaveRoles(id, activated_roles(&roles)),
        ActivationEvent::RolesSaved(Ok(())) => ActivationAction::ReloadUser(id),
        ActivationEvent::UserReloaded(Ok(info)) => ActivationAction::Answer(Ok(info)),
        ActivationEvent::RolesLoaded(Err(e)) => ActivationAction::Answer(Err(e)),
        ActivationEvent::RolesSaved(Err(e)) => ActivationAction::Answer(Err(e)),
        ActivationEvent::UserReloaded(Err(e)) => ActivationAction::Answer(Err(e)),
    }
}

/// What sending the activation mail does next.
pub enum MailAction {
    /// Load the address and nickname of user `id`.
    LoadUser(i32),
    /// Send this mail.
    SendMail(ActivationMail),
    /// Queue these notifications for their users.
    QueueNotices(Vec<(i32, Vec<Notice>)>),
    /// Tell these users to fetch their notifications.
    NotifyUsers(Vec<i32>),
    /// Answer the request.
    Answer(Result<(), ImmortalError>),
}

/// What came of an action of sending the activation mail.
pub enum MailEvent {
    /// The user's address and nickname.
    UserLoaded(Result<(String, String), ImmortalError>),
    MailSent(Result<(), ImmortalError>),
    NoticesQueued(Result<(), ImmortalError>),
    UsersNotified(Result<(), ImmortalError>),
}

/// The next action of sending the activation mail to user `id`, from what came of the last one:
/// the loaded user is sent the activation mail from `sender`; once it is sent, a welcome notice
/// with the image at `img`, made at `created_at`, is queued for the user, who is then told to
/// fetch it, and the request is answered. Any failure is the answer.
pub fn activation_mail_step(id: i32, event: MailEvent, sender: String, img: String, created_at: NaiveTimestamp) -> (action: MailAction)
    ensures
        match event {
            MailEvent::UserLoaded(Ok((email, nickname))) => action matches MailAction::SendMail(mail)
                && is_activation_mail(mail, email@, nickname@, sender@),
            MailEvent::MailSent(Ok(())) => action matches MailAction::QueueNotices(notices)
                && is_activation_notices(notices@, id, img@, created_at),
            MailEvent::NoticesQueued(Ok(())) => action matches MailAction::NotifyUsers(ids) && ids@ == seq![id],
            MailEvent::UsersNotified(Ok(())) => action matches MailAction::Answer(Ok(())),
            MailEvent::UserLoaded(Err(e)) => action matches MailAction::Answer(Err(e2)) && e2 == e,
            MailEvent::MailSent(Err(e)) => action matches MailAction::Answer(Err(e2)) && e2 == e,
            MailEvent::NoticesQueued(Err(e)) => action matches MailAction::Answer(Err(e2)) && e2 == e,
            MailEvent::UsersNotified(Err(e)) => action matches MailAction::Answer(Err(e2)) && e2 == e,
        },
{
    match event {
        MailEvent::UserLoaded(Ok((email, nickname))) => MailAction::SendMail(activation_mail(email, nickname, sender)),
        MailEvent::MailSent(Ok(())) => MailAction::QueueNotices(activation_notices(id, img, created_at)),
        MailEvent::NoticesQueued(Ok(())) => {
            let ids = vec![id];
            assert(ids@ =~= seq![id]);
            MailAction::NotifyUsers(ids)
        },
        MailEvent::UsersNotified(Ok(())) => MailAction::Answer(Ok(())),
        MailEvent::UserLoaded(Err(e)) => MailAction::Answer(Err(e)),
        MailEvent::MailSent(Err(e)) => MailAction::Answer(Err(e)),
        MailEvent::NoticesQueued(Err(e)) => MailAction::Answer(Err(e)),
        MailEvent::UsersNotified(Err(e)) => MailAction::Answer(Err(e)),
    }
}

} // verus!
