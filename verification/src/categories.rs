//! The fixed category taxonomy: Movies (2000) and TV (5000), nine
//! subcategories each.
use vstd::prelude::*;
use vstd::string::StringExecFns;
use crate::types::{Category, Subcategory};

verus! {

/// Whether `s` is the subcategory with the given id and name.
pub open spec fn subcat_is(s: Subcategory, id: u32, name: Seq<char>) -> bool {
    s.id == id && s.name@ == name
}

/// Whether `c` is the Movies category of the fixed taxonomy.
pub open spec fn is_movies_category(c: Category) -> bool {
    &&& c.id == 2000
    &&& c.name@ == "Movies"@
    &&& c.subcategories@.len() == 9
    &&& subcat_is(c.subcategories@[0], 2010, "Movies/Foreign"@)
    &&& subcat_is(c.subcategories@[1], 2020, "Movies/Other"@)
    &&& subcat_is(c.subcategories@[2], 2030, "Movies/SD"@)
    &&& subcat_is(c.subcategories@[3], 2040, "Movies/HD"@)
    &&& subcat_is(c.subcategories@[4], 2045, "Movies/UHD"@)
    &&& subcat_is(c.subcategories@[5], 2050, "Movies/BluRay"@)
    &&& subcat_is(c.subcategories@[6], 2060, "Movies/3D"@)
    &&& subcat_is(c.subcategories@[7], 2070, "Movies/DVD"@)
    &&& subcat_is(c.subcategories@[8], 2080, "Movies/WEB-DL"@)
}

/// Whether `c` is the TV category of the fixed taxonomy.
pub open spec fn is_tv_category(c: Category) -> bool {
    &&& c.id == 5000
    &&& c.name@ == "TV"@
    &&& c.subcategories@.len() == 9
    &&& subcat_is(c.subcategories@[0], 5010, "TV/WEB-DL"@)
    &&& subcat_is(c.subcategories@[1], 5020, "TV/Foreign"@)
    &&& subcat_is(c.subcategories@[2], 5030, "TV/SD"@)
    &&& subcat_is(c.subcategories@[3], 5040, "TV/HD"@)
    &&& subcat_is(c.subcategories@[4], 5045, "TV/UHD"@)
    &&& subcat_is(c.subcategories@[5], 5050, "TV/Other"@)
    &&& subcat_is(c.subcategories@[6], 5060, "TV/Sport"@)
    &&& subcat_is(c.subcategories@[7], 5070, "TV/Anime"@)
    &&& subcat_is(c.subcategories@[8], 5080, "TV/Documentary"@)
}

/// Whether `cs` is exactly the fixed taxonomy: Movies then TV.
pub open spec fn is_category_table(cs: Seq<Category>) -> bool {
    &&& cs.len() == 2
    &&& is_movies_category(cs[0])
    &&& is_tv_category(cs[1])
}

fn subcat(sub_id: u32, sub_name: &str) -> (r: Subcategory)
    ensures
        subcat_is(r, sub_id, sub_name@),
{
    Subcategory { id: sub_id, name: String::from_str(sub_name) }
}

/// The fixed category taxonomy, Movies first, then TV.
pub fn categories() -> (r: Vec<Category>)
    ensures
        is_category_table(r@),
{
    let mut movie_subs: Vec<Subcategory> = Vec::new();
    movie_subs.push(subcat(2010, "Movies/Foreign"));
    movie_subs.push(subcat(2020, "Movies/Other"));
    movie_subs.push(subcat(2030, "Movies/SD"));
    movie_subs.push(subcat(2040, "Movies/HD"));
    movie_subs.push(subcat(2045, "Movies/UHD"));
    movie_subs.push(subcat(2050, "Movies/BluRay"));
    movie_subs.push(subcat(2060, "Movies/3D"));
    movie_subs.push(subcat(2070, "Movies/DVD"));
    movie_subs.push(subcat(2080, "Movies/WEB-DL"));
    let movies = Category { id: 2000, name: String::from_str("Movies"), subcategories: movie_subs };

    let mut tv_subs: Vec<Subcategory> = Vec::new();
    tv_subs.push(subcat(5010, "TV/WEB-DL"));
    tv_subs.push(subcat(5020, "TV/Foreign"));
    tv_subs.push(subcat(5030, "TV/SD"));
    tv_subs.push(subcat(5040, "TV/HD"));
    tv_subs.push(subcat(5045, "TV/UHD"));
    tv_subs.push(subcat(5050, "TV/Other"));
    tv_subs.push(subcat(5060, "TV/Sport"));
    tv_subs.push(subcat(5070, "TV/Anime"));
    tv_subs.push(subcat(5080, "TV/Documentary"));
    let tv = Category { id: 5000, name: String::from_str("TV"), subcategories: tv_subs };

    let mut r: Vec<Category> = Vec::new();
    r.push(movies);
    r.push(tv);
    r
}

/// The first category of `cs` whose name is `name`, if any.
pub open spec fn find_by_name(cs: Seq<Category>, name: Seq<char>) -> Option<Category>
    decreases cs.len(),
{
    if cs.len() == 0 {
        None
    } else if cs[0].name@ == name {
        Some(cs[0])
    } else {
        find_by_name(cs.drop_first(), name)
    }
}

/// Looks a category up by name: the first one with that name, if any.
pub fn get_category_by_name<'a>(cs: &'a Vec<Category>, name: &str) -> (r: Option<&'a Category>)
    ensures
        match r {
            Some(c) => find_by_name(cs@, name@) == Some(*c),
            None => find_by_name(cs@, name@) is None,
        },
{
    let mut i: usize = 0;
    proof {
        assert(cs@.subrange(0, cs@.len() as int) =~= cs@);
    }
    while i < cs.len()
        invariant
            i <= cs@.len(),
            find_by_name(cs@, name@) == find_by_name(cs@.subrange(i as int, cs@.len() as int), name@),
        decreases cs@.len() - i,
    {
        let ghost suffix = cs@.subrange(i as int, cs@.len() as int);
        if crate::text::str_eq(cs[i].name.as_str(), name) {
            assert(suffix[0] == cs@[i as int]);
            return Some(&cs[i]);
        }
        i = i + 1;
        proof {
            assert(suffix.drop_first() =~= cs@.subrange(i as int, cs@.len() as int));
            assert(suffix[0] == cs@[i - 1]);
        }
    }
    proof {
        assert(cs@.subrange(cs@.len() as int, cs@.len() as int) =~= Seq::<Category>::empty());
    }
    None
}

} // verus!
