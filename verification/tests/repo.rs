use stockin_api::domain::id::id_from_str;
use stockin_api::domain::item::{Item, ItemParams};
use stockin_api::repo::item_model::{InsertModel, Model, UpdateModel};
use stockin_api::repo::model_ext::{ConvertError, ModelExt};
use stockin_api::repo::{Timestamp, TimestampError};

fn params(title: &str) -> ItemParams {
    ItemParams {
        title: title.to_string(),
        url: format!("https://{}.com/", title),
        thumbnail: String::new(),
    }
}

fn row(id: &str, title: &str) -> Model {
    Model {
        id: id.to_string(),
        title: title.to_string(),
        url: "u".to_string(),
        thumbnail: "t".to_string(),
        created_at: 5_000,
        updated_at: 6_000,
    }
}

#[test]
fn clock_readings_are_cut_to_microseconds() {
    assert_eq!(Timestamp::from_reading(Some(1_234_567)), Ok(1_234_000));
    assert_eq!(Timestamp::from_reading(Some(2_000)), Ok(2_000));
    assert_eq!(Timestamp::from_reading(Some(-1)), Ok(-1_000));
    assert_eq!(Timestamp::from_reading(Some(-1_000)), Ok(-1_000));
    assert_eq!(Timestamp::from_reading(None), Err(TimestampError));
    assert_eq!(Timestamp::from_reading(Some(i64::MIN)), Err(TimestampError));
    assert_eq!(
        Timestamp::from_reading(Some(i64::MAX)),
        Ok(i64::MAX - i64::MAX % 1000)
    );
}

#[test]
fn now_is_whole_microseconds() {
    let t = Timestamp::now().unwrap();
    assert_eq!(t % 1000, 0);
    assert!(t > 1_600_000_000_000_000_000);
}

#[test]
fn model_converts_to_item() {
    let m = row("00000000-0000-0000-0000-00000000002a", "x");
    assert_eq!(
        m.convert(),
        Ok(Item {
            id: 42,
            title: "x".to_string(),
            url: "u".to_string(),
            thumbnail: "t".to_string(),
            created_at: 5_000,
            updated_at: 6_000,
        })
    );
    assert_eq!(row("not-an-id", "x").convert(), Err(ConvertError));
}

#[test]
fn optional_rows_convert() {
    assert_eq!(None::<Model>.convert(), Ok(None));
    let got = Some(row("00000000-0000-0000-0000-000000000001", "x")).convert();
    assert_eq!(got.unwrap().unwrap().id, 1);
    assert_eq!(Some(row("zz", "x")).convert(), Err(ConvertError));
}

#[test]
fn row_lists_convert_in_order() {
    let rows = vec![
        row("00000000-0000-0000-0000-000000000003", "c"),
        row("00000000-0000-0000-0000-000000000002", "b"),
        row("00000000-0000-0000-0000-000000000001", "a"),
    ];
    let items = rows.convert().unwrap();
    let ids: Vec<u128> = items.iter().map(|i| i.id).collect();
    let titles: Vec<&str> = items.iter().map(|i| i.title.as_str()).collect();
    assert_eq!(ids, vec![3, 2, 1]);
    assert_eq!(titles, vec!["c", "b", "a"]);
    assert_eq!(Vec::<Model>::new().convert(), Ok(vec![]));
    let bad = vec![
        row("00000000-0000-0000-0000-000000000003", "c"),
        row("bad", "b"),
    ];
    assert_eq!(bad.convert(), Err(ConvertError));
}

#[test]
fn insert_model_takes_the_fields_and_one_time() {
    let m = InsertModel::new(params("example")).unwrap();
    assert_eq!(m.title, "example");
    assert_eq!(m.url, "https://example.com/");
    assert_eq!(m.thumbnail, "");
    assert_eq!(m.created_at, m.updated_at);
    assert_eq!(m.created_at % 1000, 0);
    assert_eq!((m.id >> 76) & 0xf, 7);
}

#[test]
fn inserted_row_reads_back() {
    let m = InsertModel::new(params("example")).unwrap();
    let text = m.id_text();
    assert_eq!(text.len(), 36);
    assert_eq!(id_from_str(&text), Some(m.id));
    let stored = Model {
        id: text,
        title: m.title.clone(),
        url: m.url.clone(),
        thumbnail: m.thumbnail.clone(),
        created_at: m.created_at,
        updated_at: m.updated_at,
    };
    let item = stored.convert().unwrap();
    assert_eq!(item.id, m.id);
    assert_eq!(item.title, m.title);
    assert_eq!(item.created_at, item.updated_at);
}

#[test]
fn insert_model_with_values() {
    let m = InsertModel::with_values(9, 3_000, params("v"));
    assert_eq!(m.id, 9);
    assert_eq!(m.created_at, 3_000);
    assert_eq!(m.updated_at, 3_000);
    assert_eq!(m.id_text(), "00000000-0000-0000-0000-000000000009");
}

#[test]
fn update_model_keeps_the_id() {
    let m = UpdateModel::new(11, params("updated")).unwrap();
    assert_eq!(m.id, 11);
    assert_eq!(m.title, "updated");
    assert_eq!(m.updated_at % 1000, 0);
    assert_eq!(m.id_text(), "00000000-0000-0000-0000-00000000000b");
    let w = UpdateModel::with_values(2, 8_000, params("w"));
    assert_eq!(w.updated_at, 8_000);
    assert_eq!(w.url, "https://w.com/");
}
