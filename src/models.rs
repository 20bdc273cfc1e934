//! Transaction categories and the record of a single transaction.
use vstd::prelude::*;
use crate::date::{Date, YearMonthDay};
use vstd::std_specs::cmp::PartialEqSpec;

verus! {

/// Nature of a money inflow.
#[derive(Clone, Copy, Debug, PartialEq, Eq, Structural)]
pub enum IncomeCategory {
    Salary,
    Bonus,
    Other,
}

/// Nature of a money outflow.
#[derive(Clone, Copy, Debug, PartialEq, Eq, Structural)]
pub enum ExpenseCategory {
    Food,
    Hobby,
    Other,
}

/// Either an income or an expense, with its sub-category.
#[derive(Clone, Copy, Debug, PartialEq, Eq, Structural)]
pub enum Category {
    Income(IncomeCategory),
    Expense(ExpenseCategory),
}

// Names under which the categories are written in serialized form.

pub open spec fn income_name(c: IncomeCategory) -> Seq<char> {
    match c {
        IncomeCategory::Salary => "Salary"@,
        IncomeCategory::Bonus => "Bonus"@,
        IncomeCategory::Other => "Other"@,
    }
}

pub open spec fn expense_name(c: ExpenseCategory) -> Seq<char> {
    match c {
        ExpenseCategory::Food => "Food"@,
        ExpenseCategory::Hobby => "Hobby"@,
        ExpenseCategory::Other => "Other"@,
    }
}

/// The tag that tells an income from an expense.
pub open spec fn category_tag(c: Category) -> Seq<char> {
    match c {
        Category::Income(_) => "Income"@,
        Category::Expense(_) => "Expense"@,
    }
}

/// The name of the sub-category that a category carries.
pub open spec fn category_variant(c: Category) -> Seq<char> {
    match c {
        Category::Income(i) => income_name(i),
        Category::Expense(e) => expense_name(e),
    }
}

pub open spec fn income_from_name(s: Seq<char>) -> Option<IncomeCategory> {
    if s == "Salary"@ {
        Some(IncomeCategory::Salary)
    } else if s == "Bonus"@ {
        Some(IncomeCategory::Bonus)
    } else if s == "Other"@ {
        Some(IncomeCategory::Other)
    } else {
        None
    }
}

pub open spec fn expense_from_name(s: Seq<char>) -> Option<ExpenseCategory> {
    if s == "Food"@ {
        Some(ExpenseCategory::Food)
    } else if s == "Hobby"@ {
        Some(ExpenseCategory::Hobby)
    } else if s == "Other"@ {
        Some(ExpenseCategory::Other)
    } else {
        None
    }
}

/// The category written as `tag` and `variant`, if those name one.
pub open spec fn category_from_names(tag: Seq<char>, variant: Seq<char>) -> Option<Category> {
    if tag == "Income"@ {
        match income_from_name(variant) {
            Some(i) => Some(Category::Income(i)),
            None => None,
        }
    } else if tag == "Expense"@ {
        match expense_from_name(variant) {
            Some(e) => Some(Category::Expense(e)),
            None => None,
        }
    } else {
        None
    }
}

/// Whether two strings hold the same characters.
fn same_text(a: &str, b: &str) -> (r: bool)
    ensures
        r == (a@ == b@),
{
    a.to_owned() == b.to_owned()
}

impl IncomeCategory {
    pub fn name(&self) -> (r: &'static str)
        ensures
            r@ == income_name(*self),
    {
        match self {
            IncomeCategory::Salary => "Salary",
            IncomeCategory::Bonus => "Bonus",
            IncomeCategory::Other => "Other",
        }
    }

    /// The income category named `s`, if any.
    pub fn from_name(s: &str) -> (r: Option<IncomeCategory>)
        ensures
            r == income_from_name(s@),
    {
        if same_text(s, "Salary") {
            Some(IncomeCategory::Salary)
        } else if same_text(s, "Bonus") {
            Some(IncomeCategory::Bonus)
        } else if same_text(s, "Other") {
            Some(IncomeCategory::Other)
        } else {
            None
        }
    }
}

impl ExpenseCategory {
    pub fn name(&self) -> (r: &'static str)
        ensures
            r@ == expense_name(*self),
    {
        match self {
            ExpenseCategory::Food => "Food",
            ExpenseCategory::Hobby => "Hobby",
            ExpenseCategory::Other => "Other",
        }
    }

    /// The expense category named `s`, if any.
    pub fn from_name(s: &str) -> (r: Option<ExpenseCategory>)
        ensures
            r == expense_from_name(s@),
    {
        if same_text(s, "Food") {
            Some(ExpenseCategory::Food)
        } else if same_text(s, "Hobby") {
            Some(ExpenseCategory::Hobby)
        } else if same_text(s, "Other") {
            Some(ExpenseCategory::Other)
        } else {
            None
        }
    }
}

impl Category {
    pub fn tag(&self) -> (r: &'static str)
        ensures
            r@ == category_tag(*self),
    {
        match self {
            Category::Income(_) => "Income",
            Category::Expense(_) => "Expense",
        }
    }

    pub fn variant_name(&self) -> (r: &'static str)
        ensures
            r@ == category_variant(*self),
    {
        match self {
            Category::Income(i) => i.name(),
            Category::Expense(e) => e.name(),
        }
    }

    /// The category written with tag `tag` and sub-category `variant`;
    /// `None` for an unknown tag, or a sub-category unknown under that tag.
    pub fn from_names(tag: &str, variant: &str) -> (r: Option<Category>)
        ensures
            r == category_from_names(tag@, variant@),
    {
        if same_text(tag, "Income") {
            match IncomeCategory::from_name(variant) {
                Some(i) => Some(Category::Income(i)),
                None => None,
            }
        } else if same_text(tag, "Expense") {
            match ExpenseCategory::from_name(variant) {
                Some(e) => Some(Category::Expense(e)),
                None => None,
            }
        } else {
            None
        }
    }
}


/// Abstract value of an item.
pub struct ItemModel {
    pub name: Seq<char>,
    pub category: Category,
    pub price: u32,
    pub date: YearMonthDay,
}

/// A single financial transaction: a label, its category, a non-negative
/// amount of monetary units and the day it happened. An item is not changed
/// after it is made.
#[derive(Debug)]
pub struct Item {
    name: String,
    category: Category,
    price: u32,
    date: Date,
}

impl View for Item {
    type V = ItemModel;

    closed spec fn view(&self) -> ItemModel {
        ItemModel { name: self.name@, category: self.category, price: self.price, date: self.date@ }
    }
}

impl Item {
    /// The item that holds exactly the given values. A price is unsigned, so a
    /// negative one cannot be passed.
    pub fn new(name: String, category: Category, price: u32, date: Date) -> (r: Item)
        ensures
            r@ == (ItemModel { name: name@, category, price, date: date@ }),
    {
        Item { name, category, price, date }
    }

    pub fn name(&self) -> (r: &str)
        ensures
            r@ == self@.name,
    {
        self.name.as_str()
    }

    pub fn category(&self) -> (r: Category)
        ensures
            r == self@.category,
    {
        self.category
    }

    pub fn price(&self) -> (r: u32)
        ensures
            r == self@.price,
    {
        self.price
    }

    pub fn date(&self) -> (r: Date)
        ensures
            r@ == self@.date,
    {
        self.date
    }
}

impl PartialEq for Item {
    fn eq(&self, other: &Item) -> (r: bool) {
        proof {
            Date::lemma_view_eq(self.date, other.date);
        }
        self.name == other.name && self.category == other.category && self.price == other.price
            && self.date == other.date
    }
}

impl vstd::std_specs::cmp::PartialEqSpecImpl for Item {
    open spec fn obeys_eq_spec() -> bool {
        true
    }

    open spec fn eq_spec(&self, other: &Item) -> bool {
        self@ == other@
    }
}

impl Eq for Item {
}

/// The serialized names start with pairwise different letters, so no two of
/// them are equal.
pub proof fn lemma_names_distinct()
    ensures
        "Income"@[0] == 'I' && "Expense"@[0] == 'E',
        "Salary"@[0] == 'S' && "Bonus"@[0] == 'B' && "Other"@[0] == 'O',
        "Food"@[0] == 'F' && "Hobby"@[0] == 'H',
{
    reveal_strlit("Income");
    reveal_strlit("Expense");
    reveal_strlit("Salary");
    reveal_strlit("Bonus");
    reveal_strlit("Other");
    reveal_strlit("Food");
    reveal_strlit("Hobby");
}

/// Two items compare equal exactly when their names, categories, prices and
/// dates are pairwise equal.
pub proof fn lemma_eq_iff_fields(a: &Item, b: &Item)
    ensures
        a.eq_spec(b) <==> (a@.name == b@.name && a@.category == b@.category && a@.price
            == b@.price && a@.date == b@.date),
{
}

/// A category written as its tag and sub-category name reads back as itself.
pub proof fn lemma_category_names_round_trip(c: Category)
    ensures
        category_from_names(category_tag(c), category_variant(c)) == Some(c),
{
    lemma_names_distinct();
}

/// A category read back from its serialized names is an income exactly when
/// its tag is the income tag, and an expense exactly when its tag is the
/// expense tag; the two tags differ, so no read can give both.
pub proof fn lemma_decoded_tag_exclusive(tag: Seq<char>, variant: Seq<char>)
    ensures
        "Income"@ != "Expense"@,
        category_from_names(tag, variant) matches Some(c) ==> {
            &&& (c is Income <==> tag == "Income"@)
            &&& (c is Expense <==> tag == "Expense"@)
            &&& category_tag(c) == tag
            &&& category_variant(c) == variant
        },
{
    lemma_names_distinct();
}

} // verus!
