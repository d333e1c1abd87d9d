//! The choices the product forms of the business app make on the menu.

use vstd::prelude::*;

verus! {

/// A menu category as the product forms see it: its id, its name, and how
/// many products it holds.
#[derive(Clone, Debug)]
pub struct CategorySummary {
    pub id: String,
    pub name: String,
    pub product_count: usize,
}

/// `i` is the first category named `name`.
pub open spec fn first_named(cats: Seq<CategorySummary>, name: Seq<char>, i: int) -> bool {
    &&& 0 <= i < cats.len()
    &&& cats[i].name@ == name
    &&& forall|j: int| 0 <= j < i ==> #[trigger] cats[j].name@ != name
}

/// Where the add-product form puts a new product: in the first category
/// with the chosen name, numbered by the count of products that category
/// already holds; nowhere when no category has that name.
pub fn new_product_place(cats: &Vec<CategorySummary>, name: &str) -> (r: Option<(usize, usize)>)
    ensures
        match r {
            Some((i, n)) => first_named(cats@, name@, i as int) && n == cats@[i as int].product_count,
            None => forall|j: int| 0 <= j < cats@.len() ==> #[trigger] cats@[j].name@ != name@,
        },
{
    let wanted = name.to_owned();
    let mut i: usize = 0;
    while i < cats.len()
        invariant
            i <= cats@.len(),
            wanted@ == name@,
            forall|j: int| 0 <= j < i ==> #[trigger] cats@[j].name@ != name@,
        decreases cats.len() - i,
    {
        if cats[i].name.eq(&wanted) {
            return Some((i, cats[i].product_count));
        }
        i += 1;
    }
    None
}

/// The position the add-category form gives a new category: after the
/// categories of the menu, or the first of a menu that does not exist yet.
pub fn new_category_index(category_count: Option<usize>) -> (r: usize)
    ensures
        r == match category_count {
            Some(n) => n,
            None => 0,
        },
{
    match category_count {
        Some(n) => n,
        None => 0,
    }
}

/// The discount a product form saves: the one entered, only while the
/// discount is switched on.
pub fn kept_discount(enabled: bool, entered: Option<String>) -> (r: Option<String>)
    ensures
        r == if enabled { entered } else { None },
{
    if enabled {
        entered
    } else {
        None
    }
}

} // verus!
