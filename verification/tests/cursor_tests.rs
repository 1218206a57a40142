use toasty_cursor::cursor::{pull_item, row_fits, Cursor};
use toasty_cursor::model::Model;
use toasty_cursor::schema::{ModelId, SchemaView};
use toasty_cursor::stream::RowStream;
use toasty_cursor::model::FromCursor;
use toasty_cursor::user::{User, UsersById, USER_FIELD_COUNT};
use toasty_cursor::value::{Error, Value};

fn user_record(id: i64, name: &str, active: bool) -> Value {
    Value::Record(vec![
        Value::I64(id),
        Value::String(String::from(name)),
        Value::Bool(active),
    ])
}

fn user(id: i64, name: &str, active: bool) -> User {
    User {
        id,
        name: String::from(name),
        active,
    }
}

fn user_schema() -> SchemaView {
    SchemaView::from_field_counts(vec![USER_FIELD_COUNT])
}

#[test]
fn next_yields_items_in_order_then_none() {
    let stream = RowStream::from_items(vec![
        Ok(user_record(1, "alice", true)),
        Ok(user_record(2, "bob", false)),
        Ok(user_record(3, "carol", true)),
    ]);
    let schema = user_schema();
    let mut cursor = Cursor::<User>::new(&schema, stream, true);

    assert_eq!(cursor.next(), Some(Ok(user(1, "alice", true))));
    assert_eq!(cursor.next(), Some(Ok(user(2, "bob", false))));
    assert_eq!(cursor.next(), Some(Ok(user(3, "carol", true))));
    assert_eq!(cursor.next(), None);
    assert_eq!(cursor.next(), None);
}

#[test]
fn next_yields_upstream_error_unchanged_at_its_position() {
    let stream = RowStream::from_items(vec![
        Ok(user_record(1, "alice", true)),
        Ok(user_record(2, "bob", false)),
        Err(Error::Stream(42)),
    ]);
    let schema = user_schema();
    let mut cursor = Cursor::<User>::new(&schema, stream, true);

    assert_eq!(cursor.next(), Some(Ok(user(1, "alice", true))));
    assert_eq!(cursor.next(), Some(Ok(user(2, "bob", false))));
    assert_eq!(cursor.next(), Some(Err(Error::Stream(42))));
}

#[test]
fn collect_matches_pulling_and_appending_by_hand() {
    let items = || {
        vec![
            Ok(user_record(7, "dora", false)),
            Ok(user_record(8, "eve", true)),
        ]
    };
    let schema = user_schema();

    let collected: Result<Vec<User>, Error> =
        Cursor::<User>::new(&schema, RowStream::from_items(items()), true).collect();

    let mut by_hand: Vec<User> = Vec::new();
    let mut cursor = Cursor::<User>::new(&schema, RowStream::from_items(items()), true);
    while let Some(res) = cursor.next() {
        by_hand.push(res.expect("no error in this stream"));
    }

    assert_eq!(collected, Ok(by_hand));
}

#[test]
fn collect_over_empty_stream_is_empty() {
    let schema = user_schema();
    let cursor = Cursor::<User>::new(&schema, RowStream::from_items(vec![]), true);
    let collected: Result<Vec<User>, Error> = cursor.collect();
    assert_eq!(collected, Ok(Vec::new()));
}

#[test]
fn collect_returns_the_error_next_would_return() {
    let items = || {
        vec![
            Ok(user_record(1, "alice", true)),
            Err(Error::Stream(13)),
            Ok(user_record(2, "bob", false)),
        ]
    };
    let schema = user_schema();

    let collected: Result<Vec<User>, Error> =
        Cursor::<User>::new(&schema, RowStream::from_items(items()), true).collect();

    let mut cursor = Cursor::<User>::new(&schema, RowStream::from_items(items()), true);
    let first = cursor.next().expect("stream not exhausted");
    assert!(first.is_ok());
    let second = cursor.next().expect("stream not exhausted");
    let err = second.expect_err("the second pull is the upstream error");

    assert_eq!(collected, Err(err));
}

#[test]
fn collect_short_circuits_and_later_rows_are_never_observed() {
    let timed_out = Error::Stream(408);
    let items = || {
        vec![
            Ok(user_record(1, "alice", true)),
            Err(timed_out),
            Ok(user_record(2, "bob", false)),
        ]
    };
    let schema = user_schema();

    let collected: Result<Vec<User>, Error> =
        Cursor::<User>::new(&schema, RowStream::from_items(items()), true).collect();
    assert_eq!(collected, Err(timed_out));

    // A caller pulling by hand stops at the first error: row2 is never seen.
    let mut observed: Vec<User> = Vec::new();
    let mut cursor = Cursor::<User>::new(&schema, RowStream::from_items(items()), true);
    while let Some(res) = cursor.next() {
        match res {
            Ok(u) => observed.push(u),
            Err(e) => {
                assert_eq!(e, timed_out);
                break;
            }
        }
    }
    assert_eq!(observed, vec![user(1, "alice", true)]);
}

#[test]
fn one_user_record_materializes_then_terminates() {
    let stream = RowStream::from_items(vec![Ok(user_record(1, "alice", true))]);
    let schema = user_schema();
    let mut cursor = Cursor::<User>::new(&schema, stream, true);

    assert_eq!(
        cursor.next(),
        Some(Ok(User {
            id: 1,
            name: String::from("alice"),
            active: true,
        }))
    );
    assert_eq!(cursor.next(), None);
}

#[test]
fn validate_row_rejects_a_record_with_the_wrong_field_count() {
    let short_record = Value::Record(vec![
        Value::I64(1),
        Value::String(String::from("alice")),
    ]);
    let schema = user_schema();

    // With assertions enabled the mismatch is caught; the surrounding system
    // aborts reporting the expected and actual counts.
    let checked = Cursor::<User>::new(&schema, RowStream::from_items(vec![]), true);
    assert!(!checked.validate_row(&short_record));
    assert_eq!(schema.field_count(ModelId(0)), 3);
    assert!(!row_fits(&short_record, 3));

    // With assertions disabled the same value passes through unchecked.
    let unchecked = Cursor::<User>::new(&schema, RowStream::from_items(vec![]), false);
    assert!(unchecked.validate_row(&short_record));
}

#[test]
fn validate_row_ignores_non_record_shapes() {
    let schema = user_schema();
    let checked = Cursor::<User>::new(&schema, RowStream::from_items(vec![]), true);
    assert!(checked.validate_row(&Value::Null));
    assert!(checked.validate_row(&Value::I64(9)));
}

#[test]
fn short_record_without_assertions_fails_with_missing_field() {
    let short_record = Value::Record(vec![
        Value::I64(1),
        Value::String(String::from("alice")),
    ]);
    let stream = RowStream::from_items(vec![Ok(short_record)]);
    let schema = user_schema();
    let mut cursor = Cursor::<User>::new(&schema, stream, false);

    assert_eq!(cursor.next(), Some(Err(Error::MissingField(2))));
    assert_eq!(cursor.next(), None);
}

#[test]
fn non_record_value_fails_materialization() {
    let stream = RowStream::from_items(vec![Ok(Value::Bool(true))]);
    let schema = user_schema();
    let mut cursor = Cursor::<User>::new(&schema, stream, false);
    assert_eq!(cursor.next(), Some(Err(Error::NotARecord)));
}

#[test]
fn wrong_field_shape_fails_materialization() {
    let bad_record = Value::Record(vec![
        Value::String(String::from("not-an-id")),
        Value::String(String::from("alice")),
        Value::Bool(true),
    ]);
    let stream = RowStream::from_items(vec![Ok(bad_record)]);
    let schema = user_schema();
    let mut cursor = Cursor::<User>::new(&schema, stream, true);
    assert_eq!(cursor.next(), Some(Err(Error::WrongFieldType(0))));
}

#[test]
fn materialize_is_pure_per_value() {
    assert_eq!(
        User::materialize(user_record(5, "frank", false)),
        Ok(user(5, "frank", false))
    );
    assert_eq!(
        User::materialize(Value::Null),
        Err(Error::NotARecord)
    );
    assert_eq!(User::id(), ModelId(0));
}

#[test]
fn pull_item_drives_one_live_item() {
    let schema = user_schema();
    let ok: Result<User, Error> = pull_item(&schema, true, Ok(user_record(4, "gail", true)));
    assert_eq!(ok, Ok(user(4, "gail", true)));
    let err: Result<User, Error> = pull_item(&schema, true, Err(Error::Stream(3)));
    assert_eq!(err, Err(Error::Stream(3)));
}

#[test]
fn schema_view_reports_declared_field_counts() {
    let schema = SchemaView::from_field_counts(vec![3, 5, 1]);
    assert_eq!(schema.field_count(ModelId(0)), 3);
    assert_eq!(schema.field_count(ModelId(1)), 5);
    assert_eq!(schema.field_count(ModelId(2)), 1);
}

#[test]
fn collect_into_set_like_container_keeps_distinct_users() {
    // Two records share the identifier 1: a set-like container keeps the
    // first appearance only, while an order-preserving one keeps both.
    let items = || {
        vec![
            Ok(user_record(1, "alice", true)),
            Ok(user_record(2, "bob", false)),
            Ok(user_record(1, "alice-again", false)),
        ]
    };
    let schema = user_schema();

    let deduped: Result<UsersById, Error> =
        Cursor::<User>::new(&schema, RowStream::from_items(items()), true).collect();
    assert_eq!(
        deduped.map(UsersById::into_vec),
        Ok(vec![user(1, "alice", true), user(2, "bob", false)])
    );

    let kept_all: Result<Vec<User>, Error> =
        Cursor::<User>::new(&schema, RowStream::from_items(items()), true).collect();
    assert_eq!(
        kept_all,
        Ok(vec![
            user(1, "alice", true),
            user(2, "bob", false),
            user(1, "alice-again", false),
        ])
    );
}

#[test]
fn set_like_container_appends_one_user_per_id() {
    let mut users = UsersById::empty();
    users.append(user(5, "ed", true));
    users.append(user(5, "ed-again", false));
    users.append(user(6, "fay", false));
    assert_eq!(
        users.into_vec(),
        vec![user(5, "ed", true), user(6, "fay", false)]
    );
}

#[test]
fn row_stream_is_single_pass_and_ordered() {
    let mut stream = RowStream::from_items(vec![
        Ok(Value::I64(1)),
        Err(Error::Stream(2)),
        Ok(Value::I64(3)),
    ]);
    assert_eq!(stream.next(), Some(Ok(Value::I64(1))));
    assert_eq!(stream.next(), Some(Err(Error::Stream(2))));
    assert_eq!(stream.next(), Some(Ok(Value::I64(3))));
    assert_eq!(stream.next(), None);
}
