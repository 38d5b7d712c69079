//! Searching for items in a mailbox.

use crate::common::BaseFolderId;
use crate::common::ItemShape;
use crate::operations::XmlSerialize;
use crate::Error;
use vstd::prelude::*;

verus! {

use crate::common::spec_folder_id_list;
use vstd::view::View as _;
use crate::common::write_folder_id_list;
use crate::emit;

/// Defines whether a search finds items in folders or in the folders'
/// dumpsters.
#[derive(Clone, Copy, Debug)]
pub enum Traversal {
    /// Only items directly in the searched folders.
    Shallow,
    /// Only items in the folders' dumpsters.
    SoftDeleted,
    /// Only associated items in the folders.
    Associated,
}

impl Traversal {
    /// The text this variant writes on the wire.
    pub open spec fn spec_text(self) -> Seq<char> {
        match self {
            Traversal::Shallow => "Shallow"@,
            Traversal::SoftDeleted => "SoftDeleted"@,
            Traversal::Associated => "Associated"@,
        }
    }

    /// The wire text of this variant.
    pub fn as_text(self) -> (r: &'static str)
        ensures
            r@ == self.spec_text(),
    {
        match self {
            Traversal::Shallow => "Shallow",
            Traversal::SoftDeleted => "SoftDeleted",
            Traversal::Associated => "Associated",
        }
    }
}

/// Where a page of results begins.
#[derive(Clone, Copy, Debug)]
pub enum BasePoint {
    /// Pages count from the start of the result set.
    Beginning,
    /// Pages count from the end of the result set.
    End,
}

impl BasePoint {
    /// The text this variant writes on the wire.
    pub open spec fn spec_text(self) -> Seq<char> {
        match self {
            BasePoint::Beginning => "Beginning"@,
            BasePoint::End => "End"@,
        }
    }

    /// The wire text of this variant.
    pub fn as_text(self) -> (r: &'static str)
        ensures
            r@ == self.spec_text(),
    {
        match self {
            BasePoint::Beginning => "Beginning",
            BasePoint::End => "End",
        }
    }
}

/// How a search pages its results.
#[derive(Clone, Debug)]
pub enum View {
    /// A page addressed by offset from a base point.
    IndexedPageItemView {
        /// The most entries one page may hold.
        max_entries_returned: Option<u32>,
        /// The offset of the page from the base point.
        offset: u32,
        /// Where pages count from.
        base_point: BasePoint,
    },
    /// A page addressed by fraction of the result set.
    FractionalPageItemView {
        /// The most entries one page may hold.
        max_entries_returned: Option<u32>,
        /// The numerator of the fraction.
        numerator: u32,
        /// The denominator of the fraction.
        denominator: u32,
    },
    /// A window of calendar time.
    CalendarView {
        /// The most entries one page may hold.
        max_entries_returned: Option<u32>,
        /// The start of the window.
        start_date: String,
        /// The end of the window.
        end_date: String,
    },
    /// A window of the contacts list, by name.
    ContactsView {
        /// The most entries one page may hold.
        max_entries_returned: Option<u32>,
        /// The first name in the window.
        initial_name: Option<String>,
        /// The last name in the window.
        final_name: Option<String>,
    },
}

impl View {
    /// The rendered optional page-size attribute.
    pub open spec fn spec_max_attr(max: Option<u32>) -> Seq<u8> {
        match max {
            Some(n) => emit::attr_num("MaxEntriesReturned", n as nat),
            None => Seq::empty(),
        }
    }

    /// The rendered view element, one per paging variant.
    pub open spec fn spec_elem(self) -> Seq<u8> {
        match self {
            View::IndexedPageItemView { max_entries_returned, offset, base_point } => emit::elem(
                "IndexedPageItemView",
                View::spec_max_attr(max_entries_returned) + emit::attr_str(
                    "BasePoint",
                    base_point.spec_text(),
                ) + emit::attr_num("Offset", offset as nat),
                Seq::empty(),
            ),
            View::FractionalPageItemView { max_entries_returned, numerator, denominator } => emit::elem(
                "FractionalPageItemView",
                View::spec_max_attr(max_entries_returned) + emit::attr_num(
                    "Numerator",
                    numerator as nat,
                ) + emit::attr_num("Denominator", denominator as nat),
                Seq::empty(),
            ),
            View::CalendarView { max_entries_returned, start_date, end_date } => emit::elem(
                "CalendarView",
                View::spec_max_attr(max_entries_returned) + emit::attr_str(
                    "StartDate",
                    start_date@,
                ) + emit::attr_str("EndDate", end_date@),
                Seq::empty(),
            ),
            View::ContactsView { max_entries_returned, initial_name, final_name } => emit::elem(
                "ContactsView",
                View::spec_max_attr(max_entries_returned) + match initial_name {
                    Some(n) => emit::attr_str("InitialName", n@),
                    None => Seq::empty(),
                } + match final_name {
                    Some(n) => emit::attr_str("FinalName", n@),
                    None => Seq::empty(),
                },
                Seq::empty(),
            ),
        }
    }

    /// Appends this view as its own element.
    pub fn write_elem(&self, out: &mut Vec<u8>)
        ensures
            final(out)@ == old(out)@ + self.spec_elem(),
    {
        let mut attrs: Vec<u8> = Vec::new();
        match self {
            View::IndexedPageItemView { max_entries_returned, offset, base_point } => {
                match max_entries_returned {
                    Some(n) => emit::push_attr_u64(&mut attrs, "MaxEntriesReturned", *n as u64),
                    None => {},
                }
                emit::push_attr_str(&mut attrs, "BasePoint", base_point.as_text());
                emit::push_attr_u64(&mut attrs, "Offset", *offset as u64);
                emit::push_elem(out, "IndexedPageItemView", attrs, Vec::new());
            },
            View::FractionalPageItemView { max_entries_returned, numerator, denominator } => {
                match max_entries_returned {
                    Some(n) => emit::push_attr_u64(&mut attrs, "MaxEntriesReturned", *n as u64),
                    None => {},
                }
                emit::push_attr_u64(&mut attrs, "Numerator", *numerator as u64);
                emit::push_attr_u64(&mut attrs, "Denominator", *denominator as u64);
                emit::push_elem(out, "FractionalPageItemView", attrs, Vec::new());
            },
            View::CalendarView { max_entries_returned, start_date, end_date } => {
                match max_entries_returned {
                    Some(n) => emit::push_attr_u64(&mut attrs, "MaxEntriesReturned", *n as u64),
                    None => {},
                }
                emit::push_attr_str(&mut attrs, "StartDate", start_date.as_str());
                emit::push_attr_str(&mut attrs, "EndDate", end_date.as_str());
                emit::push_elem(out, "CalendarView", attrs, Vec::new());
            },
            View::ContactsView { max_entries_returned, initial_name, final_name } => {
                match max_entries_returned {
                    Some(n) => emit::push_attr_u64(&mut attrs, "MaxEntriesReturned", *n as u64),
                    None => {},
                }
                match initial_name {
                    Some(n) => emit::push_attr_str(&mut attrs, "InitialName", n.as_str()),
                    None => {},
                }
                match final_name {
                    Some(n) => emit::push_attr_str(&mut attrs, "FinalName", n.as_str()),
                    None => {},
                }
                emit::push_elem(out, "ContactsView", attrs, Vec::new());
            },
        }
        proof {
            assert(final(out)@ =~= old(out)@ + self.spec_elem());
        }
    }
}

/// A request to find items in a mailbox.
#[derive(Clone, Debug)]
pub struct FindItem {
    /// Whether to search folders or their dumpsters.
    pub traversal: Traversal,
    /// What information to include in the response for each item.
    pub item_shape: ItemShape,
    /// How to page the results.
    pub view: Option<View>,
    /// The folders to search.
    pub parent_folder_ids: Vec<BaseFolderId>,
}

impl XmlSerialize for FindItem {
    open spec fn spec_attrs(&self) -> Seq<u8> {
        emit::attr_str("xmlns", crate::common::MESSAGES_NS_URI@) + emit::attr_str(
            "Traversal",
            self.traversal.spec_text(),
        )
    }

    open spec fn spec_children(&self) -> Seq<u8> {
        emit::elem("ItemShape", Seq::empty(), self.item_shape.spec_content()) + match self.view {
            Some(v) => v.spec_elem(),
            None => Seq::empty(),
        } + emit::elem(
            "ParentFolderIds",
            Seq::empty(),
            spec_folder_id_list(self.parent_folder_ids@),
        )
    }

    fn serialize_as_element(&self, out: &mut Vec<u8>, name: &str) -> (r: Result<(), Error>) {
        let mut attrs: Vec<u8> = Vec::new();
        emit::push_attr_str(&mut attrs, "xmlns", crate::common::MESSAGES_NS_URI);
        emit::push_attr_str(&mut attrs, "Traversal", self.traversal.as_text());
        let mut children: Vec<u8> = Vec::new();
        let mut shape: Vec<u8> = Vec::new();
        self.item_shape.write_content(&mut shape);
        emit::push_elem(&mut children, "ItemShape", Vec::new(), shape);
        match &self.view {
            Some(v) => v.write_elem(&mut children),
            None => {},
        }
        let mut id_elems: Vec<u8> = Vec::new();
        write_folder_id_list(&self.parent_folder_ids, &mut id_elems);
        emit::push_elem(&mut children, "ParentFolderIds", Vec::new(), id_elems);
        emit::push_elem(out, name, attrs, children);
        proof {
            assert(final(out)@ =~= old(out)@ + emit::elem(
                name,
                self.spec_attrs(),
                self.spec_children(),
            ));
        }
        Ok(())
    }
}

impl crate::sealed::NamedStructure for FindItem {
    open spec fn spec_name() -> Seq<char> {
        "FindItem"@
    }

    fn name() -> (r: &'static str) {
        "FindItem"
    }
}

/// Contains the status and result of a single [`FindItem`] request.
#[derive(Clone, Debug)]
pub struct FindItemResponseMessage {
    /// The items found.
    pub items: crate::get_item::Items,
}

} // verus!
