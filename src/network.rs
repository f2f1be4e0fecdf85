use vstd::prelude::*;

verus! {

/// What a subnet description reports that placement depends on.
#[derive(Debug)]
pub struct Subnet {
    pub subnet_id: Option<String>,
    /// Whether instances launched here get a public address, when reported.
    pub map_public_ip_on_launch: Option<bool>,
}

#[derive(PartialEq, Eq, Structural, Clone, Copy, Debug)]
pub enum SubnetType {
    Public,
    Private,
}

pub open spec fn is_public(t: SubnetType) -> bool {
    t == SubnetType::Public
}

/// Whether a subnet is placed in the set of type `t`: it has an id and reports
/// the auto-assign flag that `t` stands for.
pub open spec fn selects(s: Subnet, t: SubnetType) -> bool {
    s.subnet_id.is_some() && s.map_public_ip_on_launch == Some(is_public(t))
}

/// The ids of the subnets of type `t`, in the order of the description.
pub open spec fn ids_of_type(subnets: Seq<Subnet>, t: SubnetType) -> Seq<Seq<char>>
    decreases subnets.len(),
{
    if subnets.len() == 0 {
        Seq::empty()
    } else {
        let prev = ids_of_type(subnets.drop_last(), t);
        let s = subnets.last();
        if selects(s, t) {
            prev.push(s.subnet_id.unwrap()@)
        } else {
            prev
        }
    }
}

/// No two subnets of the description share an id.
pub open spec fn ids_unique(subnets: Seq<Subnet>) -> bool {
    forall|i: int, j: int|
        0 <= i < subnets.len() && 0 <= j < subnets.len() && i != j
            && (#[trigger] subnets[i]).subnet_id.is_some() && (#[trigger] subnets[j]).subnet_id.is_some()
            ==> subnets[i].subnet_id.unwrap()@ != subnets[j].subnet_id.unwrap()@
}

/// The ids of the subnets that have an id and report a definite auto-assign flag.
pub open spec fn placed_ids(subnets: Seq<Subnet>) -> Set<Seq<char>> {
    Set::new(
        |id: Seq<char>|
            exists|i: int|
                0 <= i < subnets.len() && (#[trigger] subnets[i]).subnet_id.is_some()
                    && subnets[i].map_public_ip_on_launch.is_some()
                    && subnets[i].subnet_id.unwrap()@ == id,
    )
}

fn clone_id(s: &String) -> (r: String)
    ensures
        r@ == s@,
{
    s.clone()
}

/// The ids of the subnets of the given type, in order.
pub fn subnet_ids(subnets: &Vec<Subnet>, subnet_type: SubnetType) -> (r: Vec<String>)
    ensures
        r@.map_values(|x: String| x@) == ids_of_type(subnets@, subnet_type),
{
    let mut r: Vec<String> = Vec::new();
    let mut i: usize = 0;
    while i < subnets.len()
        invariant
            i <= subnets@.len(),
            r@.map_values(|x: String| x@) == ids_of_type(subnets@.subrange(0, i as int), subnet_type),
        decreases subnets@.len() - i,
    {
        let s = &subnets[i];
        proof {
            assert(subnets@.subrange(0, i + 1).drop_last() =~= subnets@.subrange(0, i as int));
        }
        let wanted = match subnet_type {
            SubnetType::Public => true,
            SubnetType::Private => false,
        };
        match (&s.subnet_id, s.map_public_ip_on_launch) {
            (Some(id), Some(flag)) => {
                if flag == wanted {
                    r.push(clone_id(id));
                    assert(r@.map_values(|x: String| x@) =~= ids_of_type(subnets@.subrange(0, i as int), subnet_type).push(id@));
                }
            },
            _ => {},
        }
        i = i + 1;
    }
    assert(subnets@.subrange(0, subnets@.len() as int) =~= subnets@);
    r
}

/// Every id of type `t` belongs to a subnet of the description that selects it.
pub proof fn lemma_ids_of_type_members(subnets: Seq<Subnet>, t: SubnetType, k: int)
    requires
        0 <= k < ids_of_type(subnets, t).len(),
    ensures
        exists|i: int|
            0 <= i < subnets.len() && selects(#[trigger] subnets[i], t)
                && subnets[i].subnet_id.unwrap()@ == ids_of_type(subnets, t)[k],
    decreases subnets.len(),
{
    let prev = ids_of_type(subnets.drop_last(), t);
    if k < prev.len() {
        lemma_ids_of_type_members(subnets.drop_last(), t, k);
        let i = choose|i: int|
            0 <= i < subnets.drop_last().len() && selects(#[trigger] subnets.drop_last()[i], t)
                && subnets.drop_last()[i].subnet_id.unwrap()@ == prev[k];
        assert(subnets[i] == subnets.drop_last()[i]);
    } else {
        assert(selects(subnets[subnets.len() - 1], t));
    }
}

/// Every subnet of the description that selects type `t` has its id among those of type `t`.
pub proof fn lemma_ids_of_type_complete(subnets: Seq<Subnet>, t: SubnetType, i: int)
    requires
        0 <= i < subnets.len(),
        selects(subnets[i], t),
    ensures
        ids_of_type(subnets, t).contains(subnets[i].subnet_id.unwrap()@),
    decreases subnets.len(),
{
    let prev = ids_of_type(subnets.drop_last(), t);
    if i < subnets.len() - 1 {
        assert(subnets.drop_last()[i] == subnets[i]);
        lemma_ids_of_type_complete(subnets.drop_last(), t, i);
        let k = choose|k: int| 0 <= k < prev.len() && prev[k] == subnets[i].subnet_id.unwrap()@;
        assert(ids_of_type(subnets, t)[k] == prev[k]);
    } else {
        assert(ids_of_type(subnets, t) == prev.push(subnets[i].subnet_id.unwrap()@));
        assert(ids_of_type(subnets, t)[prev.len() as int] == subnets[i].subnet_id.unwrap()@);
    }
}

/// Placement partitions the subnets: where subnet ids are unique, no id is both
/// public and private, and the public and private ids together are exactly the
/// ids of the subnets that report a definite auto-assign flag.
pub proof fn lemma_subnet_partition(subnets: Seq<Subnet>)
    requires
        ids_unique(subnets),
    ensures
        ids_of_type(subnets, SubnetType::Public).to_set().disjoint(
            ids_of_type(subnets, SubnetType::Private).to_set(),
        ),
        ids_of_type(subnets, SubnetType::Public).to_set() + ids_of_type(
            subnets,
            SubnetType::Private,
        ).to_set() == placed_ids(subnets),
{
    let pubs = ids_of_type(subnets, SubnetType::Public);
    let privs = ids_of_type(subnets, SubnetType::Private);
    assert forall|id: Seq<char>| pubs.to_set().contains(id) implies !privs.to_set().contains(id) by {
        let k = choose|k: int| 0 <= k < pubs.len() && pubs[k] == id;
        lemma_ids_of_type_members(subnets, SubnetType::Public, k);
        let i = choose|i: int|
            0 <= i < subnets.len() && selects(#[trigger] subnets[i], SubnetType::Public)
                && subnets[i].subnet_id.unwrap()@ == pubs[k];
        if privs.to_set().contains(id) {
            let m = choose|m: int| 0 <= m < privs.len() && privs[m] == id;
            lemma_ids_of_type_members(subnets, SubnetType::Private, m);
            let j = choose|j: int|
                0 <= j < subnets.len() && selects(#[trigger] subnets[j], SubnetType::Private)
                    && subnets[j].subnet_id.unwrap()@ == privs[m];
            assert(i != j);
        }
    }
    assert forall|id: Seq<char>|
        (pubs.to_set() + privs.to_set()).contains(id) <==> placed_ids(subnets).contains(id) by {
        if pubs.to_set().contains(id) {
            let k = choose|k: int| 0 <= k < pubs.len() && pubs[k] == id;
            lemma_ids_of_type_members(subnets, SubnetType::Public, k);
        }
        if privs.to_set().contains(id) {
            let k = choose|k: int| 0 <= k < privs.len() && privs[k] == id;
            lemma_ids_of_type_members(subnets, SubnetType::Private, k);
        }
        if placed_ids(subnets).contains(id) {
            let i = choose|i: int|
                0 <= i < subnets.len() && (#[trigger] subnets[i]).subnet_id.is_some()
                    && subnets[i].map_public_ip_on_launch.is_some()
                    && subnets[i].subnet_id.unwrap()@ == id;
            if subnets[i].map_public_ip_on_launch == Some(true) {
                lemma_ids_of_type_complete(subnets, SubnetType::Public, i);
            } else {
                assert(subnets[i].map_public_ip_on_launch == Some(false));
                assert(selects(subnets[i], SubnetType::Private));
                lemma_ids_of_type_complete(subnets, SubnetType::Private, i);
            }
        }
    }
    assert((pubs.to_set() + privs.to_set()) =~= placed_ids(subnets));
}

} // verus!
