use scheduler::errors::Error;
use scheduler::records::Schedule;
use scheduler::records::User;
use scheduler::service::SchedulerService;

fn fresh_service() -> SchedulerService {
    SchedulerService::new(Vec::new(), Vec::new(), b"your_jwt_secret_key".to_vec())
}

fn assert_schedule(s: &Schedule, id: u64, user_id: u64, title: &str, date: &str) {
    assert_eq!(s.id, id);
    assert_eq!(s.user_id, user_id);
    assert_eq!(s.title, title);
    assert_eq!(s.date, date);
}

#[test]
fn register_assigns_successive_ids() {
    let mut svc = fresh_service();
    assert_eq!(svc.register("alice", "p1"), Ok(1));
    assert_eq!(svc.register("bob", "p2"), Ok(2));
    assert_eq!(svc.users.len(), 2);
}

#[test]
fn register_duplicate_username_rejected() {
    let mut svc = fresh_service();
    assert_eq!(svc.register("alice", "p1"), Ok(1));
    assert_eq!(svc.register("alice", "other"), Err(Error::DuplicateUsername));
    assert_eq!(svc.users.len(), 1);
    assert_eq!(svc.register("bob", "p2"), Ok(2));
}

#[test]
fn login_token_verifies_to_the_right_user() {
    let mut svc = fresh_service();
    assert_eq!(svc.register("alice", "p1"), Ok(1));
    assert_eq!(svc.register("bob", "p2"), Ok(2));
    let token_a = svc.login("alice", "p1").expect("login should succeed");
    let token_b = svc.login("bob", "p2").expect("login should succeed");
    assert_eq!(svc.verify_token(&token_a), Ok(1));
    assert_eq!(svc.verify_token(&token_b), Ok(2));
}

#[test]
fn login_wrong_password_rejected() {
    let mut svc = fresh_service();
    assert_eq!(svc.register("alice", "p1"), Ok(1));
    assert_eq!(svc.login("alice", "wrong"), Err(Error::InvalidCredentials));
    assert_eq!(svc.login("nobody", "p1"), Err(Error::InvalidCredentials));
}

#[test]
fn garbage_token_rejected() {
    let mut svc = fresh_service();
    assert_eq!(svc.register("alice", "p1"), Ok(1));
    assert_eq!(svc.verify_token("not-a-token"), Err(Error::InvalidToken));
    assert_eq!(
        svc.add_schedule("not-a-token", "Standup", "2024-01-01"),
        Err(Error::InvalidToken)
    );
    assert_eq!(svc.get_schedules("not-a-token"), Err(Error::InvalidToken));
    assert_eq!(svc.delete_schedule("not-a-token", 1), Err(Error::InvalidToken));
}

#[test]
fn token_signed_with_another_key_rejected() {
    let mut svc = fresh_service();
    assert_eq!(svc.register("alice", "p1"), Ok(1));
    let token = svc.login("alice", "p1").expect("login should succeed");
    let other = SchedulerService::new(Vec::new(), Vec::new(), b"some_other_key".to_vec());
    assert_eq!(other.verify_token(&token), Err(Error::InvalidToken));
}

#[test]
fn added_schedule_is_owned_by_the_token_subject() {
    let mut svc = fresh_service();
    assert_eq!(svc.register("alice", "p1"), Ok(1));
    assert_eq!(svc.register("bob", "p2"), Ok(2));
    let token_b = svc.login("bob", "p2").expect("login should succeed");
    assert_eq!(svc.add_schedule(&token_b, "Gym", "2024-02-02"), Ok(1));
    let bobs = svc.get_friend_schedules(2);
    assert_eq!(bobs.len(), 1);
    assert_schedule(&bobs[0], 1, 2, "Gym", "2024-02-02");
    assert_eq!(svc.get_friend_schedules(1).len(), 0);
}

#[test]
fn listing_keeps_insertion_order_per_owner() {
    let mut svc = fresh_service();
    assert_eq!(svc.register("alice", "p1"), Ok(1));
    assert_eq!(svc.register("bob", "p2"), Ok(2));
    let token_a = svc.login("alice", "p1").expect("login should succeed");
    let token_b = svc.login("bob", "p2").expect("login should succeed");
    assert_eq!(svc.add_schedule(&token_a, "S1", "2024-01-01"), Ok(1));
    assert_eq!(svc.add_schedule(&token_a, "S2", "2024-01-02"), Ok(2));
    assert_eq!(svc.add_schedule(&token_b, "S3", "2024-01-03"), Ok(3));
    let listed = svc.get_schedules(&token_a).expect("listing should succeed");
    assert_eq!(listed.len(), 2);
    assert_schedule(&listed[0], 1, 1, "S1", "2024-01-01");
    assert_schedule(&listed[1], 2, 1, "S2", "2024-01-02");
}

#[test]
fn deleting_someone_elses_schedule_is_not_found() {
    let mut svc = fresh_service();
    assert_eq!(svc.register("alice", "p1"), Ok(1));
    assert_eq!(svc.register("bob", "p2"), Ok(2));
    let token_a = svc.login("alice", "p1").expect("login should succeed");
    let token_b = svc.login("bob", "p2").expect("login should succeed");
    assert_eq!(svc.add_schedule(&token_a, "S1", "2024-01-01"), Ok(1));
    assert_eq!(svc.delete_schedule(&token_b, 1), Err(Error::NotFound));
    let listed = svc.get_schedules(&token_a).expect("listing should succeed");
    assert_eq!(listed.len(), 1);
    assert_schedule(&listed[0], 1, 1, "S1", "2024-01-01");
}

#[test]
fn deleting_a_missing_id_is_not_found() {
    let mut svc = fresh_service();
    assert_eq!(svc.register("alice", "p1"), Ok(1));
    let token_a = svc.login("alice", "p1").expect("login should succeed");
    assert_eq!(svc.delete_schedule(&token_a, 7), Err(Error::NotFound));
}

#[test]
fn rebuilding_from_records_reproduces_the_state() {
    let mut svc = fresh_service();
    assert_eq!(svc.register("alice", "p1"), Ok(1));
    assert_eq!(svc.register("bob", "p2"), Ok(2));
    let token_a = svc.login("alice", "p1").expect("login should succeed");
    assert_eq!(svc.add_schedule(&token_a, "S1", "2024-01-01"), Ok(1));
    assert_eq!(svc.add_schedule(&token_a, "S2", "2024-01-02"), Ok(2));

    let users: Vec<User> = svc.users.records();
    let schedules: Vec<Schedule> = svc.schedules.records();
    let mut again = SchedulerService::new(users, schedules, b"your_jwt_secret_key".to_vec());

    assert_eq!(again.users.len(), 2);
    assert_eq!(again.login("alice", "wrong"), Err(Error::InvalidCredentials));
    let token_again = again.login("alice", "p1").expect("login should succeed");
    let listed = again.get_schedules(&token_again).expect("listing should succeed");
    assert_eq!(listed.len(), 2);
    assert_schedule(&listed[0], 1, 1, "S1", "2024-01-01");
    assert_schedule(&listed[1], 2, 1, "S2", "2024-01-02");
    assert_eq!(again.register("carol", "p3"), Ok(3));
}

#[test]
fn full_walkthrough() {
    let mut svc = fresh_service();
    assert_eq!(svc.register("alice", "p1"), Ok(1));
    assert_eq!(svc.register("bob", "p2"), Ok(2));
    let token_a = svc.login("alice", "p1").expect("login should succeed");

    assert_eq!(svc.add_schedule(&token_a, "Standup", "2024-01-01"), Ok(1));
    assert_eq!(svc.add_schedule(&token_a, "Review", "2024-01-02"), Ok(2));

    let listed = svc.get_schedules(&token_a).expect("listing should succeed");
    assert_eq!(listed.len(), 2);
    assert_schedule(&listed[0], 1, 1, "Standup", "2024-01-01");
    assert_schedule(&listed[1], 2, 1, "Review", "2024-01-02");

    assert_eq!(svc.delete_schedule(&token_a, 1), Ok(()));
    let listed = svc.get_schedules(&token_a).expect("listing should succeed");
    assert_eq!(listed.len(), 1);
    assert_schedule(&listed[0], 2, 1, "Review", "2024-01-02");

    // The friend view needs no token at all.
    let friend_view = svc.get_friend_schedules(1);
    assert_eq!(friend_view.len(), 1);
    assert_schedule(&friend_view[0], 2, 1, "Review", "2024-01-02");
}

#[test]
fn empty_listings_are_empty() {
    let svc = fresh_service();
    assert_eq!(svc.get_friend_schedules(1).len(), 0);
}

#[test]
fn length_based_ids_are_reassigned_after_delete() {
    // The identifier is always the collection's size plus one, so deleting
    // frees the highest id for reuse — a documented consequence of the
    // length-based scheme.
    let mut svc = fresh_service();
    assert_eq!(svc.register("alice", "p1"), Ok(1));
    let token_a = svc.login("alice", "p1").expect("login should succeed");
    assert_eq!(svc.add_schedule(&token_a, "S1", "2024-01-01"), Ok(1));
    assert_eq!(svc.delete_schedule(&token_a, 1), Ok(()));
    assert_eq!(svc.add_schedule(&token_a, "S2", "2024-01-02"), Ok(1));
}
