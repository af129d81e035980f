use immortal_blog::backend::flows::{
    activation_begin, activation_mail_step, activation_start, activation_step, ActivationAction,
    ActivationEvent, MailAction, MailEvent,
};
use immortal_blog::backend::handlers::activation_notices;
use immortal_blog::backend::services::{admit_service, required_permissions, Service};
use immortal_blog::backend::utils::{read_info_commands, store_info_commands};
use immortal_blog::common::date_format::NaiveTimestamp;
use immortal_blog::common::structs::{Claims, ImmortalError};
use immortal_blog::common::utils::{create_active_email, jwt_encode, mail_outcome};
use immortal_blog::permission_levels::PermissionLevels;

fn owned(pairs: &[(&str, i32)]) -> PermissionLevels {
    let mut m = PermissionLevels::new();
    for (name, level) in pairs {
        m.insert(name.to_string(), *level);
    }
    m
}

fn forbidden() -> ImmortalError {
    ImmortalError::Forbidden { err_msg: "Has no permissions to access current service" }
}

#[test]
fn services_require_their_levels() {
    let table = [
        (Service::GetCategories, "category", 2),
        (Service::CreateCategory, "category", 3),
        (Service::DeleteCategory, "category", 3),
        (Service::UpdateCategory, "category", 3),
        (Service::GetRoleOptions, "role", 2),
        (Service::GetTags, "tag", 2),
        (Service::CreateTag, "tag", 3),
        (Service::DeleteTag, "tag", 3),
        (Service::UpdateTag, "tag", 3),
        (Service::GetUsers, "user", 2),
        (Service::GetAuthorOptions, "user", 2),
        (Service::ForbidUsers, "user", 5),
    ];
    for (service, name, level) in table {
        let required = required_permissions(service);
        assert_eq!(required.entries().len(), 1);
        assert_eq!(required.get(name), Some(level));
    }
}

#[test]
fn services_admit_by_level() {
    let reader = owned(&[("tag", 2)]);
    assert_eq!(admit_service(Service::GetTags, &reader), Ok(()));
    assert_eq!(admit_service(Service::CreateTag, &reader), Err(forbidden()));
    assert_eq!(admit_service(Service::GetUsers, &reader), Err(forbidden()));
    let admin = owned(&[("all", 5)]);
    assert_eq!(admit_service(Service::ForbidUsers, &admin), Ok(()));
    let writer = owned(&[("user", 4)]);
    assert_eq!(admit_service(Service::GetUsers, &writer), Ok(()));
    assert_eq!(admit_service(Service::ForbidUsers, &writer), Err(forbidden()));
    assert_eq!(admit_service(Service::GetRoleOptions, &PermissionLevels::new()), Err(forbidden()));
}

#[test]
fn cache_commands() {
    let (privileges, info) = store_info_commands(7, "{\"roles\":[]}".to_string(), "{\"id\":7}".to_string());
    assert_eq!(privileges, vec!["HSET", "immortal:user:7", "privileges", "{\"roles\":[]}"]);
    assert_eq!(info, vec!["HSET", "immortal:user:7", "user_info", "{\"id\":7}"]);
    let (privileges, info) = read_info_commands(-3);
    assert_eq!(privileges, vec!["HGET", "immortal:user:-3", "privileges"]);
    assert_eq!(info, vec!["HGET", "immortal:user:-3", "user_info"]);
}

#[test]
fn mail_replies() {
    assert_eq!(mail_outcome::<&str>(Ok(2)), Ok(()));
    assert_eq!(mail_outcome::<&str>(Ok(3)), Ok(()));
    assert_eq!(mail_outcome::<&str>(Ok(4)), Err(ImmortalError::InternalError));
    assert_eq!(mail_outcome::<&str>(Ok(5)), Err(ImmortalError::InternalError));
    assert_eq!(mail_outcome::<&str>(Err("connection refused")), Err(ImmortalError::InternalError));
}

#[test]
fn activation_notice() {
    let at = NaiveTimestamp { secs: 1_566_000_123, nanos: 0 };
    let notices = activation_notices(9, "http://assets/activation.svg".to_string(), at);
    assert_eq!(notices.len(), 1);
    assert_eq!(notices[0].0, 9);
    let notice = &notices[0].1[0];
    assert_eq!(notices[0].1.len(), 1);
    assert_eq!(notice.message_type, "notifications");
    assert_eq!(notice.title, "Welcome to activate");
    assert_eq!(notice.content, "Thank you for your activation");
    assert_eq!(notice.href.as_deref(), Some("/user-center"));
    assert_eq!(notice.img.as_deref(), Some("http://assets/activation.svg"));
    assert_eq!(notice.created_at, at);
}

#[test]
fn activation_flow() {
    let start: ActivationAction<&str> = activation_begin(Ok(Claims { id: 4, exp: 0 }));
    assert!(matches!(start, ActivationAction::LoadRoles(4)));
    let refused: ActivationAction<&str> = activation_begin(Err(ImmortalError::Unauthorized { err_msg: "Invalid token" }));
    assert!(matches!(refused, ActivationAction::Answer(Err(ImmortalError::Unauthorized { err_msg: "Invalid token" }))));
    let token = jwt_encode(&Claims { id: 4, exp: i64::MAX / 2 });
    assert!(matches!(activation_start::<&str>(token), ActivationAction::LoadRoles(4)));
    assert!(matches!(activation_start::<&str>("x.y.z".to_string()), ActivationAction::Answer(Err(_))));

    match activation_step::<&str>(4, ActivationEvent::RolesLoaded(Ok(vec![2, 7]))) {
        ActivationAction::SaveRoles(id, roles) => assert_eq!((id, roles), (4, vec![3])),
        _ => panic!("roles must be saved"),
    }
    match activation_step::<&str>(4, ActivationEvent::RolesLoaded(Ok(vec![1]))) {
        ActivationAction::SaveRoles(id, roles) => assert_eq!((id, roles), (4, vec![1])),
        _ => panic!("roles must be saved"),
    }
    assert!(matches!(activation_step::<&str>(4, ActivationEvent::RolesSaved(Ok(()))), ActivationAction::ReloadUser(4)));
    assert!(matches!(activation_step(4, ActivationEvent::UserReloaded(Ok("ann"))), ActivationAction::Answer(Ok("ann"))));
    assert!(matches!(
        activation_step::<&str>(4, ActivationEvent::RolesSaved(Err(ImmortalError::InternalError))),
        ActivationAction::Answer(Err(ImmortalError::InternalError))
    ));
}

#[test]
fn activation_mail_flow() {
    let at = NaiveTimestamp { secs: 0, nanos: 0 };
    let step = |event| activation_mail_step(5, event, "noreply@example.com".to_string(), "img".to_string(), at);
    match step(MailEvent::UserLoaded(Ok(("ann@example.com".to_string(), "ann".to_string())))) {
        MailAction::SendMail(mail) => {
            assert_eq!(mail.tos, vec![("ann@example.com".to_string(), "ann".to_string())]);
            assert_eq!(mail.from, ("noreply@example.com".to_string(), "Immortal Blog"));
            assert_eq!(mail.subject, "Activated Account");
            assert_eq!(mail.content, create_active_email());
        },
        _ => panic!("the mail must be sent"),
    }
    match step(MailEvent::MailSent(Ok(()))) {
        MailAction::QueueNotices(notices) => {
            assert_eq!(notices[0].0, 5);
            assert_eq!(notices[0].1[0].title, "Welcome to activate");
        },
        _ => panic!("the notice must be queued"),
    }
    match step(MailEvent::NoticesQueued(Ok(()))) {
        MailAction::NotifyUsers(ids) => assert_eq!(ids, vec![5]),
        _ => panic!("the user must be notified"),
    }
    assert!(matches!(step(MailEvent::UsersNotified(Ok(()))), MailAction::Answer(Ok(()))));
    assert!(matches!(step(MailEvent::MailSent(Err(ImmortalError::InternalError))), MailAction::Answer(Err(ImmortalError::InternalError))));
    assert!(matches!(step(MailEvent::UserLoaded(Err(ImmortalError::BadRequest { err_msg: "no user" }))), MailAction::Answer(Err(ImmortalError::BadRequest { .. }))));
}
