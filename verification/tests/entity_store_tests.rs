use alchemix_rx::demo::User;
use alchemix_rx::entity::{Entity, EntityRecord, IndexedField};
use alchemix_rx::predicate::{is_predicate, split_words};
use alchemix_rx::sql::query_statement;
use alchemix_rx::store::{SQLiteEntityStore, StoreState, UpdatePlan};
use sqlx::sqlite::SqlitePoolOptions;
use sqlx::{Pool, Row, Sqlite};

type UserFields = (String, String, String, u64, Vec<u8>);

fn encode(user: &User) -> Option<Vec<u8>> {
    let fields: UserFields = (
        user.id.clone(),
        user.kind.clone(),
        user.name.clone(),
        user.rank as u64,
        user.data.clone(),
    );
    bincode::serialize(&fields).ok()
}

fn decode(bytes: &[u8]) -> Option<User> {
    let fields: UserFields = bincode::deserialize(bytes).ok()?;
    let mut user = User::new_with_id(&fields.0, fields.2, fields.3 as usize, fields.4);
    user.kind = fields.1;
    Some(user)
}

fn block_on<F: std::future::Future>(future: F) -> F::Output {
    tokio::runtime::Builder::new_current_thread()
        .enable_all()
        .build()
        .unwrap()
        .block_on(future)
}

async fn connect(store: &SQLiteEntityStore) -> Result<Pool<Sqlite>, String> {
    assert_eq!(store.database_url(), "sqlite::memory:");
    SqlitePoolOptions::new()
        .max_connections(1)
        .connect(&store.database_url())
        .await
        .map_err(|e| e.to_string())
}

async fn run_script(pool: &Pool<Sqlite>, script: &[String]) {
    for statement in script {
        sqlx::query(statement).execute(pool).await.unwrap();
    }
}

async fn run_update(pool: &Pool<Sqlite>, plan: &UpdatePlan) {
    let mut tx = pool.begin().await.unwrap();
    for row in &plan.rows {
        sqlx::query(&plan.insert_sql)
            .bind(row.key.clone())
            .bind(row.id.clone())
            .bind(row.kind.clone())
            .bind(row.data.clone())
            .execute(&mut *tx)
            .await
            .unwrap();
    }
    tx.commit().await.unwrap();
    sqlx::query(&plan.clear_index_sql).execute(pool).await.unwrap();
    sqlx::query(&plan.index_sql).execute(pool).await.unwrap();
}

async fn fetch(pool: &Pool<Sqlite>, sql: &str) -> Vec<User> {
    let rows = sqlx::query(sql).fetch_all(pool).await.unwrap();
    let decoded = rows
        .iter()
        .map(|row| decode(&row.get::<Vec<u8>, _>("data")))
        .collect();
    SQLiteEntityStore::decode_entities(decoded)
}

fn ten_users() -> Vec<User> {
    let mut users = vec![];
    for i in 0..10 {
        let user = User::new_with_id(
            &format!("User_{}", i),
            format!("User_{}", i),
            i,
            format!("#{}", i).as_bytes().into(),
        );
        users.push(user);
    }
    users
}

#[test]
fn test_entity_store() {
    block_on(async {
        let users = ten_users();

        let mut datastore = SQLiteEntityStore::new(":memory:");
        let connected = connect(&datastore).await;
        let pool = connected.clone().unwrap();
        let script = datastore.open(connected.map(|_| ())).unwrap();
        assert_eq!(datastore.state(), StoreState::Opened);
        run_script(&pool, &script).await;

        run_script(&pool, &datastore.clear()).await;
        let encoded: Vec<Option<Vec<u8>>> = users.iter().map(encode).collect();
        let plan = datastore.update_entities(&users, &encoded).unwrap();
        run_update(&pool, &plan).await;

        let sql = datastore.get_entities_of_kind("User", &vec![]).unwrap();
        let users: Vec<User> = fetch(&pool, &sql).await;
        assert_eq!(users.len(), 10);

        let ids = vec!["User_2", "User_5"];
        let sql = datastore.get_entities_of_kind("User", &ids).unwrap();
        let users: Vec<User> = fetch(&pool, &sql).await;
        assert_eq!(users.len(), 2);

        let sql = datastore
            .query_entities("User", "rank", "value >= 3 AND value < 6")
            .unwrap()
            .unwrap();
        let users: Vec<User> = fetch(&pool, &sql).await;
        assert_eq!(users.len(), 3);
        let mut ranks: Vec<usize> = users.iter().map(|u| u.rank).collect();
        ranks.sort();
        assert_eq!(ranks, vec![3, 4, 5]);

        let keys = vec!["User_2", "User_5"];
        let plan = datastore.remove_entities("User", &keys).unwrap();
        let removed = fetch(&pool, &plan.select_sql).await;
        assert_eq!(removed.len(), 2);
        run_script(&pool, &[plan.delete_sql]).await;
        let sql = datastore.get_entities_of_kind("User", &vec![]).unwrap();
        assert_eq!(fetch(&pool, &sql).await.len(), 8);
        let sql = datastore.get_entities_of_kind("User", &keys).unwrap();
        assert_eq!(fetch(&pool, &sql).await.len(), 0);

        assert!(datastore.close());
        pool.close().await;
        assert!(!datastore.close());
        assert_eq!(users[0].get_kind(), "User");
    });
}

async fn opened() -> (SQLiteEntityStore, Pool<Sqlite>) {
    let mut store = SQLiteEntityStore::new(":memory:");
    let connected = connect(&store).await;
    let pool = connected.clone().unwrap();
    let script = store.open(connected.map(|_| ())).unwrap();
    run_script(&pool, &script).await;
    (store, pool)
}

async fn save(store: &SQLiteEntityStore, pool: &Pool<Sqlite>, users: &Vec<User>) {
    let encoded: Vec<Option<Vec<u8>>> = users.iter().map(encode).collect();
    run_update(pool, &store.update_entities(users, &encoded).unwrap()).await;
}

async fn all_rows(pool: &Pool<Sqlite>, table: &str) -> Vec<Vec<String>> {
    let columns: &[&str] = if table == "entity" {
        &["key", "id", "kind"]
    } else {
        &["key", "id", "kind", "name", "value"]
    };
    let sql = format!("SELECT * FROM {} ORDER BY key", table);
    let rows = sqlx::query(&sql).fetch_all(pool).await.unwrap();
    rows.iter().map(|row| columns.iter().map(|c| row.get::<String, _>(*c)).collect()).collect()
}

fn same_user(a: &User, b: &User) -> bool {
    a.id == b.id && a.kind == b.kind && a.name == b.name && a.rank == b.rank && a.data == b.data
}

#[test]
fn round_trip_returns_the_entity() {
    block_on(async {
        let (store, pool) = opened().await;
        let user = User::new_with_id("u-1", "Ann".to_string(), 17, vec![0, 255, 7]);
        save(&store, &pool, &vec![User::new_with_id("u-0", "Bob".to_string(), 1, vec![])]).await;
        save(&store, &pool, &vec![User::new_with_id("u-1", "Old".to_string(), 2, vec![9])]).await;
        save(&store, &pool, &vec![user]).await;

        let sql = store.get_entities_of_kind("User", &vec!["u-1"]).unwrap();
        let found = fetch(&pool, &sql).await;
        assert_eq!(found.len(), 1);
        let expected = User::new_with_id("u-1", "Ann".to_string(), 17, vec![0, 255, 7]);
        assert!(same_user(&found[0], &expected));
        assert_eq!(
            all_rows(&pool, "entity").await,
            vec![vec!["User#u-0", "u-0", "User"], vec!["User#u-1", "u-1", "User"]]
        );
    });
}

#[test]
fn update_twice_is_update_once() {
    block_on(async {
        let (store, pool) = opened().await;
        let users = ten_users();
        save(&store, &pool, &users).await;
        let entities = all_rows(&pool, "entity").await;
        let properties = all_rows(&pool, "properties").await;
        let sql = store.get_entities_of_kind("User", &vec![]).unwrap();
        let first = fetch(&pool, &sql).await;

        save(&store, &pool, &users).await;
        assert_eq!(all_rows(&pool, "entity").await, entities);
        assert_eq!(all_rows(&pool, "properties").await, properties);
        let second = fetch(&pool, &sql).await;
        assert_eq!(first.len(), 10);
        assert_eq!(second.len(), 10);
        for user in &first {
            assert!(second.iter().any(|other| same_user(user, other)));
        }
        assert_eq!(entities.len(), 10);
        assert_eq!(properties.len(), 20);
    });
}

#[test]
fn removed_entities_leave_no_rows() {
    block_on(async {
        let (store, pool) = opened().await;
        save(&store, &pool, &ten_users()).await;

        let ids = vec!["User_3", "missing"];
        let plan = store.remove_entities("User", &ids).unwrap();
        let removed = fetch(&pool, &plan.select_sql).await;
        assert_eq!(removed.len(), 1);
        assert_eq!(removed[0].id, "User_3");
        run_script(&pool, &[plan.delete_sql]).await;

        let sql = store.get_entities_of_kind("User", &vec!["User_3"]).unwrap();
        assert!(fetch(&pool, &sql).await.is_empty());
        let properties = all_rows(&pool, "properties").await;
        assert_eq!(properties.len(), 18);
        assert!(properties.iter().all(|row| row[1] != "User_3"));
        assert_eq!(all_rows(&pool, "entity").await.len(), 9);

        // Deleting what is not there changes nothing.
        let plan = store.remove_entities("User", &vec!["missing"]).unwrap();
        assert!(fetch(&pool, &plan.select_sql).await.is_empty());
        run_script(&pool, &[plan.delete_sql]).await;
        assert_eq!(all_rows(&pool, "entity").await.len(), 9);
        assert_eq!(all_rows(&pool, "properties").await.len(), 18);

        // Nothing to remove, nothing planned.
        assert!(store.remove_entities("User", &vec![]).is_none());
    });
}

#[test]
fn predicate_query_on_rank() {
    block_on(async {
        let (store, pool) = opened().await;
        save(&store, &pool, &ten_users()).await;
        let sql =
            store.query_entities("User", "rank", "value >= 3 AND value < 6").unwrap().unwrap();
        let mut ids: Vec<String> = fetch(&pool, &sql).await.into_iter().map(|u| u.id).collect();
        ids.sort();
        assert_eq!(ids, vec!["User_3", "User_4", "User_5"]);
        let sql =
            store.query_entities("Other", "rank", "value >= 3 AND value < 6").unwrap().unwrap();
        assert!(fetch(&pool, &sql).await.is_empty());
        let sql = store.query_entities("User", "name", "value = 'User_7'").unwrap().unwrap();
        let found = fetch(&pool, &sql).await;
        assert_eq!(found.len(), 1);
        assert_eq!(found[0].rank, 7);
    });
}

#[test]
fn entity_without_encoding_is_skipped() {
    block_on(async {
        let (store, pool) = opened().await;
        let users = ten_users();
        let mut encoded: Vec<Option<Vec<u8>>> = users.iter().map(encode).collect();
        encoded[4] = None;
        encoded.truncate(8);
        let plan = store.update_entities(&users, &encoded).unwrap();
        let keys: Vec<&str> = plan.rows.iter().map(|row| row.key.as_str()).collect();
        assert_eq!(
            keys,
            vec![
                "User#User_0", "User#User_1", "User#User_2", "User#User_3", "User#User_5",
                "User#User_6", "User#User_7"
            ]
        );
        assert_eq!(plan.rows[4].id, "User_5");
        assert_eq!(plan.rows[4].kind, "User");
        assert_eq!(plan.rows[4].data, encoded[5].clone().unwrap());
        assert_eq!(plan.index_sql.lines().count(), 14);
        assert!(!plan.index_sql.contains("User_4"));
        assert!(!plan.index_sql.contains("User_8"));
        assert!(!plan.clear_index_sql.contains("User_4"));
        run_update(&pool, &plan).await;
        let sql = store.get_entities_of_kind("User", &vec![]).unwrap();
        assert_eq!(fetch(&pool, &sql).await.len(), 7);
        // Every index row belongs to a stored entity.
        let stored: Vec<String> =
            all_rows(&pool, "entity").await.into_iter().map(|row| row[0].clone()).collect();
        let properties = all_rows(&pool, "properties").await;
        assert_eq!(properties.len(), 14);
        assert!(properties.iter().all(|row| stored.contains(&row[0])));
    });
}

#[test]
fn rows_that_do_not_decode_are_dropped() {
    let decoded = vec![None, decode(&encode(&ten_users()[1]).unwrap()), decode(&[1, 2, 3]), None];
    let users = SQLiteEntityStore::decode_entities(decoded);
    assert_eq!(users.len(), 1);
    assert_eq!(users[0].id, "User_1");
    let nothing: Vec<Option<User>> = vec![];
    assert!(SQLiteEntityStore::decode_entities(nothing).is_empty());
    assert_eq!(SQLiteEntityStore::decode_entities(vec![Some(1), Some(2), None, Some(1)]), vec![1, 2, 1]);
}

#[test]
fn statements_are_exact() {
    let mut store = SQLiteEntityStore::new("./test-data/out/test.db").with_pragmas("PRAGMA x;");
    assert_eq!(store.database_url(), "sqlite:./test-data/out/test.db");
    assert_eq!(store.max_connections(), 5);
    assert!(!store.is_open());
    assert!(store.get_entities_of_kind("User", &vec![]).is_none());
    assert!(store.query_entities("User", "rank", "value > 1").unwrap().is_none());
    assert!(store.remove_entities("User", &vec!["a"]).is_none());
    assert!(store.update_entities(&ten_users(), &vec![]).is_none());
    assert!(store.clear().is_empty());
    assert!(!store.close());
    assert_eq!(store.state(), StoreState::Unopened);

    let failure = store.open(Err("unable to open database file".to_string()));
    assert_eq!(failure.err().unwrap().message, "unable to open database file");
    assert_eq!(store.state(), StoreState::Unopened);

    let script = store.open(Ok(())).unwrap();
    assert_eq!(script.len(), 2);
    assert_eq!(script[0], "PRAGMA x;");
    let create = "CREATE TABLE IF NOT EXISTS entity (key TEXT not null PRIMARY KEY, id TEXT not null, kind TEXT not null, data BLOB not null);\n\
CREATE INDEX IF NOT EXISTS nodes_id ON entity (id);\n\
CREATE TABLE IF NOT EXISTS links (id TEXT not null PRIMARY KEY, predicate TEXT not null, source TEXT not null, target TEXT not null, ordering INTEGER, weight REAL);\n\
CREATE TABLE IF NOT EXISTS properties (key TEXT not null, id TEXT not null, kind TEXT not null, name TEXT not null, value TEXT, PRIMARY KEY (key, name));\n\
CREATE INDEX IF NOT EXISTS properties_values ON properties (value);\n";
    assert_eq!(script[1], create);
    assert!(store.is_open());

    let clear = store.clear();
    assert_eq!(clear.len(), 2);
    assert_eq!(
        clear[0],
        "DROP TABLE entity;\nDROP TABLE links;\nDROP TABLE properties;\nDROP INDEX IF EXISTS nodes_id;\nDROP INDEX IF EXISTS properties_values;\n"
    );
    assert_eq!(clear[1], create);

    assert_eq!(
        store.get_entities_of_kind("User", &vec![]).unwrap(),
        "SELECT data FROM entity WHERE kind = 'User'"
    );
    assert_eq!(
        store.get_entities_of_kind("User", &vec!["User_2", "User_5"]).unwrap(),
        "SELECT data FROM entity WHERE kind = 'User' AND id IN ('User_2', 'User_5')"
    );
    assert_eq!(
        store.query_entities("User", "rank", "value >= 3 AND value < 6").unwrap().unwrap(),
        "SELECT data FROM entity WHERE key IN ( SELECT key FROM properties WHERE kind = 'User' AND name='rank' AND value >= 3 AND value < 6)"
    );
    let plan = store.remove_entities("User", &vec!["User_2", "User_5"]).unwrap();
    assert_eq!(
        plan.select_sql,
        "SELECT data FROM entity WHERE kind = 'User' AND id IN ('User_2', 'User_5')"
    );
    assert_eq!(
        plan.delete_sql,
        "DELETE from entity WHERE key IN ('User#User_2', 'User#User_5');DELETE from properties WHERE key IN ('User#User_2', 'User#User_5');"
    );

    let users = vec![User::new_with_id("u1", "Ann".to_string(), 204, vec![1])];
    let plan = store.update_entities(&users, &vec![Some(vec![1, 2])]).unwrap();
    assert_eq!(
        plan.insert_sql,
        "INSERT or REPLACE INTO entity (key, id, kind, data) VALUES (?, ?, ?, ?)"
    );
    assert_eq!(plan.rows.len(), 1);
    assert_eq!(plan.rows[0].key, "User#u1");
    assert_eq!(plan.rows[0].data, vec![1, 2]);
    assert_eq!(plan.clear_index_sql, "DELETE from properties WHERE key IN ('User#u1');");
    assert_eq!(
        plan.index_sql,
        "INSERT or REPLACE INTO properties (key, id, kind, name, value) VALUES ('User#u1', 'u1', 'User', 'name', 'Ann');\n\
INSERT or REPLACE INTO properties (key, id, kind, name, value) VALUES ('User#u1', 'u1', 'User', 'rank', '204');"
    );
    let nobody: Vec<User> = vec![];
    let plan = store.update_entities(&nobody, &vec![]).unwrap();
    assert!(plan.rows.is_empty());
    assert_eq!(plan.clear_index_sql, "DELETE from properties WHERE key IN ();");
    assert_eq!(plan.index_sql, "");

    assert!(store.close());
    assert_eq!(store.state(), StoreState::Closed);
    assert!(!store.close());
    assert!(store.get_entities_of_kind("User", &vec![]).is_none());
    assert!(store.clear().is_empty());
}

#[test]
fn expressions_that_are_no_predicates_are_refused() {
    let mut store = SQLiteEntityStore::new(":memory:");
    for good in [
        "value = 1",
        "value == 5",
        "value != 0",
        "value <> 12",
        "value < 3",
        "value <= 3",
        "value > 3",
        "value >= 3 AND value < 6",
        "value > 103 AND value < 106",
        "value = 'User_7' OR value = 'it;s' OR value >= 10",
        "value = ''",
    ] {
        assert!(is_predicate(good), "{}", good);
        assert!(store.query_entities("User", "rank", good).unwrap().is_none());
    }
    for bad in [
        "",
        " ",
        "value",
        "value >",
        "value > 3 AND",
        "value > 3 AND value",
        "value  > 3",
        " value > 3",
        "value > 3 ",
        "rank > 3",
        "VALUE > 3",
        "value > -3",
        "value > 3.5",
        "value > x",
        "value LIKE 'a'",
        "value > 3 and value < 6",
        "value > 3 XOR value < 6",
        "value > 3; DROP TABLE entity",
        "value > 3); DROP TABLE entity; --",
        "value = 'a' OR 1 = 1",
        "value = 'a b'",
        "value = 'a''b'",
        "value = 'a",
        "value = '",
        "1 = 1",
        "value > 3\nAND value < 6",
    ] {
        assert!(!is_predicate(bad), "{}", bad);
        let error = store.query_entities("User", "rank", bad).err().unwrap();
        assert_eq!(error.expression, bad);
        assert_eq!(error.into_message(), format!("Malformed predicate: {}", bad));
        assert!(query_statement("User", "rank", bad).is_none());
    }
    store.open(Ok(())).unwrap();
    assert!(store.query_entities("User", "rank", "value > 3").unwrap().is_some());
    assert!(store.query_entities("User", "rank", "value > 3; DROP TABLE entity").is_err());
    assert_eq!(split_words("a  b "), vec!["a", "", "b", ""]);
    assert_eq!(split_words(""), vec![""]);
}

#[test]
fn quotes_in_texts_are_doubled() {
    block_on(async {
        let (store, pool) = opened().await;
        let odd = User::new_with_id("o'1", "O'Neil'); DROP TABLE entity; --".to_string(), 3, vec![7]);
        save(&store, &pool, &vec![odd]).await;
        save(&store, &pool, &ten_users()).await;

        let plan = store.update_entities(
            &vec![User::new_with_id("a'b", "n'".to_string(), 1, vec![])],
            &vec![Some(vec![])],
        );
        let plan = plan.unwrap();
        assert_eq!(plan.clear_index_sql, "DELETE from properties WHERE key IN ('User#a''b');");
        assert_eq!(
            plan.index_sql.lines().next().unwrap(),
            "INSERT or REPLACE INTO properties (key, id, kind, name, value) VALUES ('User#a''b', 'a''b', 'User', 'name', 'n''');"
        );

        assert_eq!(all_rows(&pool, "entity").await.len(), 11);
        let sql = store.get_entities_of_kind("User", &vec!["o'1"]).unwrap();
        assert_eq!(sql, "SELECT data FROM entity WHERE kind = 'User' AND id IN ('o''1')");
        let found = fetch(&pool, &sql).await;
        assert_eq!(found.len(), 1);
        assert_eq!(found[0].name, "O'Neil'); DROP TABLE entity; --");
        let sql = store.get_entities_of_kind("User' OR '1'='1", &vec![]).unwrap();
        assert!(fetch(&pool, &sql).await.is_empty());
        let sql = store.query_entities("User", "rank' OR '1'='1", "value > 0").unwrap().unwrap();
        assert!(fetch(&pool, &sql).await.is_empty());

        let plan = store.remove_entities("User", &vec!["o'1", "x'); DROP TABLE entity; --"]).unwrap();
        assert_eq!(fetch(&pool, &plan.select_sql).await.len(), 1);
        run_script(&pool, &[plan.delete_sql]).await;
        assert_eq!(all_rows(&pool, "entity").await.len(), 10);
        assert_eq!(all_rows(&pool, "properties").await.len(), 20);
    });
}

#[test]
fn an_update_leaves_no_index_row_of_the_old_version() {
    block_on(async {
        let (store, pool) = opened().await;
        let old = EntityRecord::new(
            "Note",
            "n1",
            vec![
                IndexedField { name: "title".to_string(), value: "a".to_string() },
                IndexedField { name: "draft".to_string(), value: "1".to_string() },
            ],
        );
        let other = EntityRecord::new(
            "Note",
            "n2",
            vec![IndexedField { name: "draft".to_string(), value: "1".to_string() }],
        );
        let plan = store.update_entities(&vec![old, other], &vec![Some(vec![1]), Some(vec![2])]);
        run_update(&pool, &plan.unwrap()).await;
        assert_eq!(all_rows(&pool, "properties").await.len(), 3);

        let new = EntityRecord::new(
            "Note",
            "n1",
            vec![IndexedField { name: "title".to_string(), value: "b".to_string() }],
        );
        let plan = store.update_entities(&vec![new], &vec![Some(vec![3])]);
        run_update(&pool, &plan.unwrap()).await;
        assert_eq!(
            all_rows(&pool, "properties").await,
            vec![
                vec!["Note#n1", "n1", "Note", "title", "b"],
                vec!["Note#n2", "n2", "Note", "draft", "1"],
            ]
        );

        // An entity that could not be encoded keeps the rows that it had.
        let unencoded = EntityRecord::new(
            "Note",
            "n2",
            vec![IndexedField { name: "title".to_string(), value: "c".to_string() }],
        );
        let plan = store.update_entities(&vec![unencoded], &vec![None]).unwrap();
        assert!(plan.rows.is_empty());
        assert_eq!(plan.index_sql, "");
        run_update(&pool, &plan).await;
        assert_eq!(all_rows(&pool, "properties").await.len(), 2);
        assert_eq!(all_rows(&pool, "entity").await.len(), 2);
    });
}
