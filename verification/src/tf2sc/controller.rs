//! What a request asks for, and the query that answers it.

use vstd::prelude::*;
use vstd::string::StringExecFns;
use crate::tf2sc::model::{ItemSlot, Merc};

verus! {

/// The filters of a request for weapons: a class, a slot, both or neither.
#[derive(Clone, Copy, Debug)]
pub struct MercSlotParams {
    pub merc: Option<Merc>,
    pub slot: Option<ItemSlot>,
}

impl MercSlotParams {
    /// The query that selects the rows of the weapons asked for. With a
    /// class, the rows of that class and the rows without one are selected;
    /// with a slot, the rows of weapons in that slot. The class, if any, is
    /// the first parameter of the query, and the slot the next one.
    pub open spec fn spec_query(&self) -> Seq<char> {
        match (self.merc, self.slot) {
            (None, None) => "SELECT * FROM weapon_details"@,
            (Some(_), None) => "SELECT * FROM weapon_details WHERE merc = $1 OR merc IS NULL"@,
            (None, Some(_)) => "SELECT * FROM weapon_details WHERE item_slot = $1"@,
            (Some(_), Some(_)) =>
                "SELECT * FROM weapon_details WHERE (merc = $1 OR merc IS NULL) AND item_slot = $2"@,
        }
    }

    /// The query that selects the rows of the weapons asked for.
    pub fn query(&self) -> (sql: &'static str)
        ensures
            sql@ == self.spec_query(),
    {
        match (self.merc, self.slot) {
            (None, None) => "SELECT * FROM weapon_details",
            (Some(_), None) => "SELECT * FROM weapon_details WHERE merc = $1 OR merc IS NULL",
            (None, Some(_)) => "SELECT * FROM weapon_details WHERE item_slot = $1",
            (Some(_), Some(_)) =>
                "SELECT * FROM weapon_details WHERE (merc = $1 OR merc IS NULL) AND item_slot = $2",
        }
    }
}

/// The direction in which loadouts are listed.
#[derive(Clone, Copy, Debug, PartialEq, Eq, Structural)]
pub enum Sort {
    Desc,
    Asc,
}

impl Default for Sort {
    /// Latest first.
    fn default() -> (sort: Sort)
        ensures
            sort == Sort::Desc,
    {
        Sort::Desc
    }
}

impl Sort {
    /// The keyword of the direction.
    pub open spec fn keyword(self) -> Seq<char> {
        match self {
            Sort::Desc => "DESC"@,
            Sort::Asc => "ASC"@,
        }
    }

    /// The keyword of the direction.
    pub fn as_ref(&self) -> (keyword: &'static str)
        ensures
            keyword@ == self.keyword(),
    {
        match self {
            Sort::Desc => "DESC",
            Sort::Asc => "ASC",
        }
    }
}

/// The time by which loadouts are listed.
#[derive(Clone, Copy, Debug, PartialEq, Eq, Structural)]
pub enum SortBy {
    Created,
    Updated,
}

impl Default for SortBy {
    /// By the time of the last update.
    fn default() -> (sort_by: SortBy)
        ensures
            sort_by == SortBy::Updated,
    {
        SortBy::Updated
    }
}

impl SortBy {
    /// The column of the time.
    pub open spec fn column(self) -> Seq<char> {
        match self {
            SortBy::Created => "created_at"@,
            SortBy::Updated => "updated_at"@,
        }
    }

    /// The column of the time.
    pub fn as_ref(&self) -> (column: &'static str)
        ensures
            column@ == self.column(),
    {
        match self {
            SortBy::Created => "created_at",
            SortBy::Updated => "updated_at",
        }
    }
}

/// The order that a request for loadouts asks for.
#[derive(Clone, Copy, Debug)]
pub struct LoadoutParams {
    pub sort: Option<Sort>,
    pub sort_by: Option<SortBy>,
}

impl LoadoutParams {
    /// The query that lists the loadouts in the order asked for; where the
    /// request does not say, by the time of the last update, latest first.
    pub open spec fn spec_query(&self) -> Seq<char> {
        let sort_by = match self.sort_by {
            Some(sort_by) => sort_by,
            None => SortBy::Updated,
        };
        let sort = match self.sort {
            Some(sort) => sort,
            None => Sort::Desc,
        };
        "SELECT * FROM loadouts ORDER BY "@ + sort_by.column() + " "@ + sort.keyword()
    }

    /// The query that lists the loadouts in the order asked for. Only the
    /// two columns and the two keywords can stand in it.
    pub fn query(&self) -> (sql: String)
        ensures
            sql@ == self.spec_query(),
    {
        let sort_by = match self.sort_by {
            Some(sort_by) => sort_by,
            None => SortBy::default(),
        };
        let sort = match self.sort {
            Some(sort) => sort,
            None => Sort::default(),
        };
        let mut sql = String::from_str("SELECT * FROM loadouts ORDER BY ");
        sql.append(sort_by.as_ref());
        sql.append(" ");
        sql.append(sort.as_ref());
        sql
    }
}

} // verus!
