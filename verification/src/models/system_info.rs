use vstd::prelude::*;

verus! {

/// One row of the system information table: category, item and value.
#[derive(Debug, Clone)]
pub struct SystemInfoItem {
    pub category: String,
    pub item: String,
    pub value: String,
}

/// The text of a system information row.
pub struct SystemRow {
    pub category: Seq<char>,
    pub item: Seq<char>,
    pub value: Seq<char>,
}

impl View for SystemInfoItem {
    type V = SystemRow;

    open spec fn view(&self) -> SystemRow {
        SystemRow { category: self.category@, item: self.item@, value: self.value@ }
    }
}

pub open spec fn row(category: Seq<char>, item: Seq<char>, value: Seq<char>) -> SystemRow {
    SystemRow { category, item, value }
}

/// The row that reports a failure of a category.
pub open spec fn error_row(category: Seq<char>, message: Seq<char>) -> SystemRow {
    row(category, "오류"@, message)
}

/// The rows of a list of items.
pub open spec fn rows_of(items: Seq<SystemInfoItem>) -> Seq<SystemRow> {
    items.map_values(|i: SystemInfoItem| i@)
}

pub proof fn lemma_rows_push(items: Seq<SystemInfoItem>, it: SystemInfoItem)
    ensures
        rows_of(items.push(it)) == rows_of(items).push(it@),
{
    assert(rows_of(items.push(it)) =~= rows_of(items).push(it@));
}

impl SystemInfoItem {
    pub fn new(category: &str, item: &str, value: &str) -> (r: Self)
        ensures
            r@ == row(category@, item@, value@),
    {
        SystemInfoItem {
            category: category.to_owned(),
            item: item.to_owned(),
            value: value.to_owned(),
        }
    }

    /// A row whose item is "오류" and whose value is the message.
    pub fn error(category: &str, message: &str) -> (r: Self)
        ensures
            r@ == error_row(category@, message@),
    {
        SystemInfoItem {
            category: category.to_owned(),
            item: String::from_str("오류"),
            value: message.to_owned(),
        }
    }
}

/// Appends a row and records that exactly that row was added.
pub fn push_row(items: &mut Vec<SystemInfoItem>, it: SystemInfoItem)
    ensures
        rows_of(final(items)@) == rows_of(old(items)@).push(it@),
{
    proof {
        lemma_rows_push(items@, it);
    }
    items.push(it);
}

} // verus!
