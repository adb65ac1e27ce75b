use vstd::prelude::*;

use crate::domain::id::{
    hyphenated_text, id_from_str, id_from_text, id_to_text, is_time_ordered_id,
    lemma_id_text_round_trip, max_id, new_id,
};
use crate::domain::item::{Item, ItemParams};
use crate::repo::model_ext::{ConvertError, ModelExt};
use crate::repo::{time_from_reading, Timestamp, TimestampError};

verus! {

/// A row of the `items` table as the store returns it: the identifier is
/// stored as text. Timestamps are nanoseconds since the Unix epoch.
#[derive(Debug, Clone, PartialEq, Eq)]
pub struct Model {
    pub id: String,
    pub title: String,
    pub url: String,
    pub thumbnail: String,
    pub created_at: i64,
    pub updated_at: i64,
}

impl Model {
    /// The item a row stands for, if its identifier text denotes an
    /// identifier.
    pub open spec fn item_of(&self, item: Item) -> bool {
        &&& id_from_text(self.id@) == Some(item.id)
        &&& item.title == self.title
        &&& item.url == self.url
        &&& item.thumbnail == self.thumbnail
        &&& item.created_at == self.created_at
        &&& item.updated_at == self.updated_at
    }
}

impl ModelExt for Model {
    type Target = Item;

    open spec fn convertible(&self) -> bool {
        id_from_text(self.id@) is Some
    }

    open spec fn converts_to(&self, target: Item) -> bool {
        self.item_of(target)
    }

    /// The item of the row: its identifier parsed from the text, its other
    /// fields as stored.
    fn convert(self) -> (r: Result<Item, ConvertError>) {
        match id_from_str(self.id.as_str()) {
            Some(id) => Ok(
                Item {
                    id,
                    title: self.title,
                    url: self.url,
                    thumbnail: self.thumbnail,
                    created_at: self.created_at,
                    updated_at: self.updated_at,
                },
            ),
            None => Err(ConvertError),
        }
    }
}

/// The new row made from an identifier, a time and the client's fields.
pub open spec fn inserted_model(id: u128, now: i64, params: ItemParams) -> InsertModel {
    InsertModel {
        id,
        title: params.title,
        url: params.url,
        thumbnail: params.thumbnail,
        created_at: now,
        updated_at: now,
    }
}

/// The change made from an identifier, a time and the client's fields.
pub open spec fn updated_model(id: u128, now: i64, params: ItemParams) -> UpdateModel {
    UpdateModel {
        id,
        title: params.title,
        url: params.url,
        thumbnail: params.thumbnail,
        updated_at: now,
    }
}

/// A new row: a fresh identifier, the client's fields, and the time of
/// creation as both timestamps.
#[derive(Debug, Clone, PartialEq, Eq)]
pub struct InsertModel {
    pub id: u128,
    pub title: String,
    pub url: String,
    pub thumbnail: String,
    pub created_at: i64,
    pub updated_at: i64,
}

impl InsertModel {
    /// The row made from an identifier, a time and the client's fields.
    pub fn with_values(id: u128, now: i64, params: ItemParams) -> (r: InsertModel)
        ensures
            r.id == id,
            r.title == params.title,
            r.url == params.url,
            r.thumbnail == params.thumbnail,
            r.created_at == now,
            r.updated_at == now,
            r == inserted_model(id, now, params),
    {
        InsertModel {
            id,
            title: params.title,
            url: params.url,
            thumbnail: params.thumbnail,
            created_at: now,
            updated_at: now,
        }
    }

    /// A new row for `params` with a fresh time-ordered identifier and the
    /// current time; an error exactly where the clock's reading gives no
    /// usable time.
    pub fn new(params: ItemParams) -> (r: Result<InsertModel, TimestampError>)
        ensures
            exists|id: u128, reading: Option<i64>|
                #![trigger is_time_ordered_id(id), time_from_reading(reading)]
                is_time_ordered_id(id) && r == match time_from_reading(reading) {
                    Ok(now) => Ok::<InsertModel, TimestampError>(inserted_model(id, now, params)),
                    Err(e) => Err(e),
                },
            r matches Ok(m) ==> {
                &&& is_time_ordered_id(m.id)
                &&& m.id < max_id()
                &&& m.title == params.title
                &&& m.url == params.url
                &&& m.thumbnail == params.thumbnail
                &&& m.created_at == m.updated_at
                &&& m.created_at % 1000 == 0
            },
    {
        let id = new_id();
        let clock = Timestamp::now();
        let ghost reading = choose|reading: Option<i64>| clock == time_from_reading(reading);
        assert(is_time_ordered_id(id) && clock == time_from_reading(reading));
        let now = match clock {
            Ok(t) => t,
            Err(e) => return Err(e),
        };
        Ok(InsertModel::with_values(id, now, params))
    }

    /// The text under which the identifier is stored.
    pub fn id_text(&self) -> (r: String)
        ensures
            r@ == hyphenated_text(self.id),
    {
        id_to_text(self.id)
    }
}

/// A change to a row: the new fields and the time of the change.
#[derive(Debug, Clone, PartialEq, Eq)]
pub struct UpdateModel {
    pub id: u128,
    pub title: String,
    pub url: String,
    pub thumbnail: String,
    pub updated_at: i64,
}

impl UpdateModel {
    /// The change made from an identifier, a time and the client's fields.
    pub fn with_values(id: u128, now: i64, params: ItemParams) -> (r: UpdateModel)
        ensures
            r.id == id,
            r.title == params.title,
            r.url == params.url,
            r.thumbnail == params.thumbnail,
            r.updated_at == now,
            r == updated_model(id, now, params),
    {
        UpdateModel {
            id,
            title: params.title,
            url: params.url,
            thumbnail: params.thumbnail,
            updated_at: now,
        }
    }

    /// A change of the row `id` to `params` at the current time; an error
    /// exactly where the clock's reading gives no usable time.
    pub fn new(id: u128, params: ItemParams) -> (r: Result<UpdateModel, TimestampError>)
        ensures
            exists|reading: Option<i64>|
                r == match #[trigger] time_from_reading(reading) {
                    Ok(now) => Ok::<UpdateModel, TimestampError>(updated_model(id, now, params)),
                    Err(e) => Err(e),
                },
            r matches Ok(m) ==> {
                &&& m.id == id
                &&& m.title == params.title
                &&& m.url == params.url
                &&& m.thumbnail == params.thumbnail
                &&& m.updated_at % 1000 == 0
            },
    {
        let clock = Timestamp::now();
        let ghost reading = choose|reading: Option<i64>| clock == time_from_reading(reading);
        assert(clock == time_from_reading(reading));
        let now = match clock {
            Ok(t) => t,
            Err(e) => return Err(e),
        };
        Ok(UpdateModel::with_values(id, now, params))
    }

    /// The text of the identifier of the row to change.
    pub fn id_text(&self) -> (r: String)
        ensures
            r@ == hyphenated_text(self.id),
    {
        id_to_text(self.id)
    }
}

/// A row that holds what an insertion wrote (the identifier under its
/// text) reads back as the inserted item: same identifier, same fields,
/// same timestamps.
pub proof fn lemma_inserted_row_reads_back(m: InsertModel, row: Model)
    requires
        row.id@ == hyphenated_text(m.id),
        row.title == m.title,
        row.url == m.url,
        row.thumbnail == m.thumbnail,
        row.created_at == m.created_at,
        row.updated_at == m.updated_at,
    ensures
        row.convertible(),
        row.item_of(
            Item {
                id: m.id,
                title: m.title,
                url: m.url,
                thumbnail: m.thumbnail,
                created_at: m.created_at,
                updated_at: m.updated_at,
            },
        ),
{
    lemma_id_text_round_trip(m.id);
}

/// A row's item is determined by the row.
pub proof fn lemma_row_item_unique(row: Model, a: Item, b: Item)
    requires
        row.item_of(a),
        row.item_of(b),
    ensures
        a == b,
{
}

} // verus!
