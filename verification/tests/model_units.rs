use query_gateway::context::Context;
use query_gateway::errors::{ArgumentId, ResolveError};
use query_gateway::pool::Pool;
use query_gateway::resolvers::{Mutation, Query};
use query_gateway::store::Store;
use query_gateway::user::{User, UserInput};

#[test]
fn user_exposes_its_attributes() {
    let u = User { id: 5, name: "Ada".to_string() };
    assert_eq!(u.id(), 5);
    assert_eq!(u.name(), "Ada");
}

#[test]
fn store_assigns_increasing_ids_starting_at_one() {
    let mut s = Store::new();
    assert_eq!(s.insert_user("Ada".to_string()), Ok(1));
    assert_eq!(s.insert_user("Grace".to_string()), Ok(2));
    let all = s.select_all().unwrap();
    assert_eq!(all.len(), 2);
    assert_eq!(all[0].id(), 1);
    assert_eq!(all[1].name(), "Grace");
}

#[test]
fn store_point_lookup_finds_exactly_the_row() {
    let mut s = Store::new();
    s.insert_user("Ada".to_string()).unwrap();
    s.insert_user("Grace".to_string()).unwrap();
    let found = s.select_by_id(2).unwrap().unwrap();
    assert_eq!(found.id(), 2);
    assert_eq!(found.name(), "Grace");
    assert!(s.select_by_id(3).unwrap().is_none());
}

#[test]
fn store_rejects_empty_names() {
    let mut s = Store::new();
    assert_eq!(s.insert_user(String::new()), Err(ResolveError::QueryRejected));
    assert_eq!(s.select_all().unwrap().len(), 0);
}

#[test]
fn pool_acquire_and_release_are_scoped() {
    let mut p = Pool::new(1);
    assert_eq!(p.acquire(), Ok(()));
    assert_eq!(p.free, 0);
    assert_eq!(p.acquire(), Err(ResolveError::PoolExhausted));
    assert_eq!(p.free, 0);
    p.release();
    assert_eq!(p.free, 1);
    assert_eq!(p.acquire(), Ok(()));
}

#[test]
fn resolvers_answer_through_the_pool() {
    let mut ctx = Context::new(1);
    let created = Mutation::create_user(&mut ctx, UserInput { name: "Ada".to_string() }).unwrap();
    assert_eq!(created.id(), 1);
    assert_eq!(created.name(), "Ada");
    assert_eq!(ctx.pool.free, 1);

    let found = Query::user(&mut ctx, 1).unwrap();
    assert_eq!(found.name(), "Ada");
    assert_eq!(Query::user(&mut ctx, 9).unwrap_err(), ResolveError::NotFound);

    let all = Query::users(&mut ctx).unwrap();
    assert_eq!(all.len(), 1);
    assert_eq!(ctx.pool.free, 1);
}

#[test]
fn resolver_level_empty_name_is_query_rejected() {
    let mut ctx = Context::new(1);
    let r = Mutation::create_user(&mut ctx, UserInput { name: String::new() });
    assert_eq!(r.unwrap_err(), ResolveError::QueryRejected);
}

#[test]
fn error_texts_name_the_failure() {
    assert_eq!(ResolveError::NotFound.message(), "no row matches the requested id");
    assert_eq!(
        ResolveError::PoolExhausted.message(),
        "timed out waiting for a pool connection"
    );
    assert_eq!(ResolveError::StoreUnavailable.message(), "the backing store is unreachable");
    assert_eq!(ResolveError::QueryRejected.message(), "the store rejected the statement");
    assert_eq!(ArgumentId::IdArgument.text(), "id");
    assert_eq!(ArgumentId::InputArgument.text(), "input");
    assert_eq!(ArgumentId::NameArgument.text(), "name");
}
