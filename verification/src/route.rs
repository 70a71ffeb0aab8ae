//! The navigation paths of the lobby and of each table.

use vstd::prelude::*;
use vstd::string::*;
use crate::TableId;
use crate::decimal::{decimal, lemma_decimal_injective, lemma_decimal_nonempty, push_decimal};

verus! {

/// A place to navigate to: the lobby or one table.
#[derive(Clone, Copy, Debug, PartialEq, Eq, Structural)]
pub enum Route {
    Table { id: TableId },
    Index,
}

/// The path of a table: `/table/` and the table's number.
pub open spec fn table_path(id: TableId) -> Seq<char> {
    "/table/"@ + decimal(id as nat)
}

impl Route {
    /// The path of this route: `/` for the lobby, `/table/N` for table `N`.
    pub open spec fn path(self) -> Seq<char> {
        match self {
            Route::Table { id } => table_path(id),
            Route::Index => "/"@,
        }
    }

    /// The table that this route shows, if it shows one.
    pub open spec fn spec_table_id(&self) -> Option<TableId> {
        match *self {
            Route::Table { id } => Some(id),
            Route::Index => None,
        }
    }

    /// The path of this route as a string.
    pub fn to_path(&self) -> (p: String)
        ensures
            p@ == self.path(),
    {
        match self {
            Route::Table { id } => {
                let mut p = String::from_str("/table/");
                push_decimal(&mut p, *id as u64);
                p
            },
            Route::Index => String::from_str("/"),
        }
    }

    /// The table that this route shows: none for the lobby.
    #[verifier::when_used_as_spec(spec_table_id)]
    pub fn table_id(&self) -> (id: Option<TableId>)
        ensures
            id == self.spec_table_id(),
    {
        match self {
            Route::Table { id } => Some(*id),
            Route::Index => None,
        }
    }

    /// Whether the lobby is what this route shows.
    pub fn shows_lobby(&self) -> (shown: bool)
        ensures
            shown == (self == Route::Index),
    {
        self.table_id().is_none()
    }

    /// Whether table `id` is what this route shows.
    pub fn shows_table(&self, id: TableId) -> (shown: bool)
        ensures
            shown == (self == (Route::Table { id })),
    {
        match self {
            Route::Table { id: shown } => *shown == id,
            Route::Index => false,
        }
    }
}

/// Different routes have different paths: a path names one surface.
pub proof fn lemma_path_injective(a: Route, b: Route)
    requires
        a.path() == b.path(),
    ensures
        a == b,
{
    reveal_strlit("/table/");
    reveal_strlit("/");
    match (a, b) {
        (Route::Table { id: x }, Route::Table { id: y }) => {
            let prefix = "/table/"@;
            assert(decimal(x as nat) =~= a.path().subrange(prefix.len() as int, a.path().len() as int));
            assert(decimal(y as nat) =~= b.path().subrange(prefix.len() as int, b.path().len() as int));
            lemma_decimal_injective(x as nat, y as nat);
        },
        (Route::Table { id: x }, Route::Index) => {
            lemma_decimal_nonempty(x as nat);
            assert(a.path().len() > 1);
        },
        (Route::Index, Route::Table { id: y }) => {
            lemma_decimal_nonempty(y as nat);
            assert(b.path().len() > 1);
        },
        (Route::Index, Route::Index) => {},
    }
}

} // verus!
