//! The consumers' profiles and delivery addresses, with the rule that picks
//! the default address.

use vstd::prelude::*;
use crate::keyed::{Keyed, deref_all};

verus! {

/// A stored delivery address: its id, whether it is the default one, and
/// the address itself.
#[derive(Clone, Debug)]
pub struct AddressEntry<A> {
    pub id: String,
    pub is_default: bool,
    pub address: A,
}

/// Addresses are looked up by their id.
impl<A> Keyed for AddressEntry<A> {
    open spec fn key_of(&self) -> Seq<char> {
        self.id@
    }

    fn key(&self) -> (k: &String) {
        &self.id
    }
}

/// A stored consumer profile and the public key it belongs to.
#[derive(Clone, Debug)]
pub struct ProfileEntry<P> {
    pub pubkey: String,
    pub profile: P,
}

/// Profiles are looked up by their public key.
impl<P> Keyed for ProfileEntry<P> {
    open spec fn key_of(&self) -> Seq<char> {
        self.pubkey@
    }

    fn key(&self) -> (k: &String) {
        &self.pubkey
    }
}

/// `t` is `s` with exactly the addresses of id `id` marked as default.
pub open spec fn default_set<A>(s: Seq<AddressEntry<A>>, t: Seq<AddressEntry<A>>, id: Seq<char>) -> bool {
    &&& t.len() == s.len()
    &&& forall|i: int| 0 <= i < s.len() ==> {
        &&& (#[trigger] t[i]).id == s[i].id
        &&& t[i].address == s[i].address
        &&& t[i].is_default == (s[i].id@ == id)
    }
}

/// The first default address of `s`, if any.
pub open spec fn first_default<A>(s: Seq<AddressEntry<A>>) -> Option<AddressEntry<A>>
    decreases s.len(),
{
    if s.len() == 0 {
        None
    } else if s[0].is_default {
        Some(s[0])
    } else {
        first_default(s.drop_first())
    }
}

/// Marks the addresses of id `id` as default and every other one as not.
pub fn set_default_address<A>(v: &mut Vec<AddressEntry<A>>, id: &String)
    ensures
        default_set(old(v)@, final(v)@, id@),
{
    let ghost s = old(v)@;
    let total = v.len();
    let mut out: Vec<AddressEntry<A>> = Vec::new();
    let mut i: usize = 0;
    while v.len() > 0
        invariant
            v@ == s.subrange(i as int, s.len() as int),
            s.len() == total,
            i <= s.len(),
            out@.len() == i,
            forall|j: int| 0 <= j < i ==> {
                &&& (#[trigger] out@[j]).id == s[j].id
                &&& out@[j].address == s[j].address
                &&& out@[j].is_default == (s[j].id@ == id@)
            },
        decreases v.len(),
    {
        let a = v.remove(0);
        assert(a == s[i as int]);
        let is_default = a.id.eq(id);
        out.push(AddressEntry { id: a.id, is_default, address: a.address });
        i += 1;
        assert(v@ == s.subrange(i as int, s.len() as int));
    }
    *v = out;
}

/// The first address marked as default.
pub fn default_address<A>(v: &Vec<AddressEntry<A>>) -> (r: Option<&AddressEntry<A>>)
    ensures
        match r {
            Some(a) => first_default(v@) == Some(*a),
            None => first_default(v@) is None,
        },
{
    let mut i: usize = 0;
    assert(v@.subrange(0, v@.len() as int) == v@);
    while i < v.len()
        invariant
            i <= v.len(),
            first_default(v@) == first_default(v@.subrange(i as int, v@.len() as int)),
        decreases v.len() - i,
    {
        let ghost rest = v@.subrange(i as int, v@.len() as int);
        assert(rest.drop_first() == v@.subrange(i + 1, v@.len() as int));
        if v[i].is_default {
            return Some(&v[i]);
        }
        i += 1;
    }
    None
}

/// The test "the address is not the default one".
pub open spec fn not_default<A>() -> spec_fn(AddressEntry<A>) -> bool {
    |a: AddressEntry<A>| !a.is_default
}

/// The test "the address is the default one".
pub open spec fn is_default_entry<A>() -> spec_fn(AddressEntry<A>) -> bool {
    |a: AddressEntry<A>| a.is_default
}

/// The addresses in the order the address lists show them: sorted stably
/// on the default flag (those that are not the default first), then the
/// whole list reversed, so that the default addresses come first.
pub fn addresses_default_first<'a, A>(v: &'a Vec<AddressEntry<A>>) -> (r: Vec<&'a AddressEntry<A>>)
    ensures
        deref_all(r@) == (v@.filter(not_default::<A>()) + v@.filter(is_default_entry::<A>())).reverse(),
{
    let mut others: Vec<&'a AddressEntry<A>> = Vec::new();
    let mut defaults: Vec<&'a AddressEntry<A>> = Vec::new();
    let mut i: usize = 0;
    while i < v.len()
        invariant
            i <= v.len(),
            deref_all(others@) == v@.subrange(0, i as int).filter(not_default::<A>()),
            deref_all(defaults@) == v@.subrange(0, i as int).filter(is_default_entry::<A>()),
        decreases v.len() - i,
    {
        proof {
            reveal(Seq::filter);
        }
        assert(v@.subrange(0, i + 1).drop_last() == v@.subrange(0, i as int));
        assert(v@.subrange(0, i + 1).last() == v@[i as int]);
        let a = &v[i];
        let ghost o = deref_all(others@);
        let ghost d = deref_all(defaults@);
        if a.is_default {
            defaults.push(a);
            assert(deref_all(defaults@) == d.push(*a));
            assert(deref_all(others@) == o);
        } else {
            others.push(a);
            assert(deref_all(others@) == o.push(*a));
            assert(deref_all(defaults@) == d);
        }
        i += 1;
    }
    assert(v@.subrange(0, v@.len() as int) == v@);
    let ghost whole = deref_all(others@) + deref_all(defaults@);
    let ghost n = whole.len();
    let mut out: Vec<&'a AddressEntry<A>> = Vec::new();
    let mut j: usize = defaults.len();
    while j > 0
        invariant
            j <= defaults.len(),
            whole == deref_all(others@) + deref_all(defaults@),
            n == whole.len(),
            out@.len() == defaults.len() - j,
            forall|q: int| 0 <= q < out@.len() ==> *#[trigger] out@[q] == whole[n - 1 - q],
        decreases j,
    {
        j -= 1;
        assert(whole[others@.len() + j] == *defaults@[j as int]);
        out.push(defaults[j]);
    }
    let mut k: usize = others.len();
    while k > 0
        invariant
            k <= others.len(),
            whole == deref_all(others@) + deref_all(defaults@),
            n == whole.len(),
            out@.len() == defaults.len() + others.len() - k,
            forall|q: int| 0 <= q < out@.len() ==> *#[trigger] out@[q] == whole[n - 1 - q],
        decreases k,
    {
        k -= 1;
        assert(whole[k as int] == *others@[k as int]);
        out.push(others[k]);
    }
    assert(deref_all(out@) =~= whole.reverse());
    out
}

} // verus!
