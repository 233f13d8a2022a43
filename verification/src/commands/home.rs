//! The home page commands.
use vstd::prelude::*;

use crate::models::home::{HomePageElement, HomePageElementType, HomePageGroup};
use crate::text::{nat_decimal, u64_to_string};

verus! {

/// The home page subcommands.
pub enum HomeCommand {
    /// Prints the groups of the home page.
    GetGroups,
    /// Adds a group (type CUSTOM, RECENT_MEDIA or RECENT_ALBUMS), at the top when
    /// `prepend`.
    AddGroup { name: String, group_type: String, prepend: bool },
    /// Prints the elements of a group.
    GetGroupElements { id: u64, as_refs: bool },
    /// Sets the elements of a group, as references separated by commas.
    SetGroupElements { id: u64, elements: String },
    /// Renames a group.
    RenameGroup { id: u64, name: String },
    /// Moves a group to a position.
    MoveGroup { id: u64, position: u32 },
    /// Deletes a group.
    DeleteGroup { id: u64 },
}


/// The texts of a row of cells.
pub open spec fn row_texts(row: Seq<String>) -> Seq<Seq<char>> {
    row.map_values(|s: String| s@)
}

/// The row of the group table for a group: id, type, name (empty when unnamed) and
/// number of custom elements (0 when unknown).
pub open spec fn group_row_spec(g: HomePageGroup) -> Seq<Seq<char>> {
    seq![
        nat_decimal(g.id as nat),
        g.group_type.label(),
        match g.name {
            Some(n) => n@,
            None => Seq::<char>::empty(),
        },
        nat_decimal(match g.elements_count {
            Some(c) => c as nat,
            None => 0nat,
        }),
    ]
}

/// The row of the group table for a group (see `group_row_spec`).
pub fn group_row(g: &HomePageGroup) -> (r: Vec<String>)
    ensures
        row_texts(r@) == group_row_spec(*g),
{
    let mut r: Vec<String> = Vec::new();
    r.push(u64_to_string(g.id));
    r.push(g.group_type.as_string());
    r.push(match &g.name {
        Some(n) => n.clone(),
        None => String::new(),
    });
    let count: u32 = match g.elements_count {
        Some(c) => c,
        None => 0,
    };
    r.push(u64_to_string(count as u64));
    assert(row_texts(r@) =~= group_row_spec(*g));
    r
}

/// The row of the element table for an element that holds a media asset or an album:
/// id, type and title.
pub open spec fn element_row_spec(e: HomePageElement) -> Seq<Seq<char>> {
    let (id, kind, title) = match e.album {
        Some(a) => (a.id, HomePageElementType::Album, a.name@),
        None => match e.media {
            Some(m) => (m.id, HomePageElementType::Media, m.title@),
            None => (0u64, HomePageElementType::Media, Seq::<char>::empty()),
        },
    };
    seq![nat_decimal(id as nat), kind.label(), title]
}

/// The rows of the element table of a group: one per element that holds a media
/// asset or an album, in order.
pub open spec fn element_rows_spec(es: Seq<HomePageElement>) -> Seq<Seq<Seq<char>>>
    decreases es.len(),
{
    if es.len() == 0 {
        Seq::empty()
    } else {
        let rest = element_rows_spec(es.drop_last());
        let e = es.last();
        if e.album is Some || e.media is Some {
            rest.push(element_row_spec(e))
        } else {
            rest
        }
    }
}

/// The rows of the element table of a group (see `element_rows_spec`).
pub fn element_rows(elements: &Vec<HomePageElement>) -> (r: Vec<Vec<String>>)
    ensures
        r@.map_values(|row: Vec<String>| row_texts(row@)) == element_rows_spec(elements@),
{
    let mut r: Vec<Vec<String>> = Vec::new();
    let mut i: usize = 0;
    while i < elements.len()
        invariant
            i <= elements@.len(),
            r@.map_values(|row: Vec<String>| row_texts(row@)) == element_rows_spec(elements@.take(i as int)),
        decreases elements.len() - i,
    {
        assert(elements@.take(i + 1).drop_last() =~= elements@.take(i as int));
        let e = &elements[i];
        let ghost before = r@.map_values(|row: Vec<String>| row_texts(row@));
        if e.is_valid_element() {
            let mut row: Vec<String> = Vec::new();
            row.push(u64_to_string(e.get_element_id()));
            row.push(e.get_element_type().as_string());
            row.push(e.get_element_title());
            assert(row_texts(row@) =~= element_row_spec(*e));
            let ghost rv = row_texts(row@);
            r.push(row);
            assert(r@.map_values(|row: Vec<String>| row_texts(row@)) =~= before.push(rv));
        }
        i = i + 1;
    }
    assert(elements@.take(elements@.len() as int) =~= elements@);
    r
}

} // verus!
