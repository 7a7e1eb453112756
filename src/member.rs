//! The membership registry: an ordered list of members without repetition.
use vstd::prelude::*;

use crate::address::{contains, distinct, position, Address};
use crate::error::DaoError;
use crate::state::{only_members_changed, DaoContract};

verus! {

/// Appends `members` to the registry, refusing the whole batch when one of them
/// is already a member or occurs twice in it.
pub fn add_members(dao: &mut DaoContract, members: Vec<Address>) -> (r: Result<(), DaoError>)
    requires
        old(dao).wf(),
    ensures
        final(dao).wf(),
        r is Ok <==> distinct(old(dao).members@ + members@),
        r is Err ==> r == Err::<(), DaoError>(DaoError::DuplicateMember) && *final(dao) == *old(dao),
        r is Ok ==> final(dao).members@ == old(dao).members@ + members@,
        only_members_changed(*old(dao), *final(dao)),
{
    let ghost m = dao.members@;
    let mut i: usize = 0;
    while i < members.len()
        invariant
            *dao == *old(dao),
            old(dao).wf(),
            m == old(dao).members@,
            i <= members@.len(),
            distinct(m + members@.subrange(0, i as int)),
        decreases members@.len() - i,
    {
        let ghost b = members@;
        if contains(&dao.members, &members[i]) {
            proof {
                let k = choose|k: int| 0 <= k < m.len() && #[trigger] m[k]@ == b[i as int]@;
                assert((m + b)[k]@ == (m + b)[m.len() + i]@);
            }
            return Err(DaoError::DuplicateMember);
        }
        match position(&members, &members[i]) {
            Some(j) => {
                if j < i {
                    proof {
                        assert((m + b)[m.len() + j]@ == (m + b)[m.len() + i]@);
                    }
                    return Err(DaoError::DuplicateMember);
                }
            },
            None => {},
        }
        proof {
            let prev = m + b.subrange(0, i as int);
            let next = m + b.subrange(0, i + 1);
            assert(next =~= prev.push(b[i as int]));
            assert forall|x: int, y: int| 0 <= x < y < next.len() implies #[trigger] next[x]@
                != #[trigger] next[y]@ by {
                if y == next.len() - 1 {
                    if x < m.len() {
                        assert(m[x] == next[x]);
                    } else {
                        assert(next[x] == b[x - m.len()]);
                    }
                } else {
                    assert(next[x] == prev[x] && next[y] == prev[y]);
                }
            }
        }
        i = i + 1;
    }
    proof {
        assert(members@.subrange(0, members@.len() as int) =~= members@);
    }
    let mut batch = members;
    dao.members.append(&mut batch);
    Ok(())
}

/// Appends one member, refusing one that is already a member.
pub fn add_member(dao: &mut DaoContract, member: Address) -> (r: Result<(), DaoError>)
    requires
        old(dao).wf(),
    ensures
        final(dao).wf(),
        old(dao).has_member(member@) <==> r == Err::<(), DaoError>(DaoError::DuplicateMember),
        r is Ok <==> !old(dao).has_member(member@),
        r is Err ==> *final(dao) == *old(dao),
        r is Ok ==> final(dao).members@ == old(dao).members@.push(member),
        only_members_changed(*old(dao), *final(dao)),
{
    if contains(&dao.members, &member) {
        return Err(DaoError::DuplicateMember);
    }
    let ghost m = dao.members@;
    dao.members.push(member);
    proof {
        let n = dao.members@;
        assert forall|x: int, y: int| 0 <= x < y < n.len() implies #[trigger] n[x]@
            != #[trigger] n[y]@ by {
            if y < m.len() {
                assert(n[x] == m[x] && n[y] == m[y]);
            } else {
                assert(n[x] == m[x]);
            }
        }
    }
    Ok(())
}

/// Removes `member` from the registry, keeping the order of the others.
pub fn remove_member(dao: &mut DaoContract, member: &Address) -> (r: Result<(), DaoError>)
    requires
        old(dao).wf(),
    ensures
        final(dao).wf(),
        !old(dao).has_member(member@) <==> r == Err::<(), DaoError>(DaoError::UnknownMember),
        r is Ok <==> old(dao).has_member(member@),
        r is Err ==> *final(dao) == *old(dao),
        r is Ok ==> exists|i: int|
            0 <= i < old(dao).members@.len() && #[trigger] old(dao).members@[i]@ == member@
                && final(dao).members@ == old(dao).members@.remove(i),
        r is Ok ==> !final(dao).has_member(member@),
        only_members_changed(*old(dao), *final(dao)),
{
    match position(&dao.members, member) {
        None => Err(DaoError::UnknownMember),
        Some(i) => {
            let ghost m = dao.members@;
            dao.members.remove(i);
            proof {
                let n = dao.members@;
                assert forall|x: int, y: int| 0 <= x < y < n.len() implies #[trigger] n[x]@
                    != #[trigger] n[y]@ by {
                    if x < i {
                        if y < i {
                            assert(n[x] == m[x] && n[y] == m[y]);
                        } else {
                            assert(n[x] == m[x] && n[y] == m[y + 1]);
                        }
                    } else {
                        assert(n[x] == m[x + 1] && n[y] == m[y + 1]);
                    }
                }
                assert forall|k: int| 0 <= k < n.len() implies #[trigger] n[k]@ != member@ by {
                    if k < i {
                        assert(n[k] == m[k]);
                        assert(m[k]@ != m[i as int]@);
                    } else {
                        assert(n[k] == m[k + 1]);
                        assert(m[i as int]@ != m[k + 1]@);
                    }
                }
            }
            Ok(())
        },
    }
}

/// The members, in the order they joined.
pub fn read_members(dao: &DaoContract) -> (r: Vec<Address>)
    ensures
        r@ == dao.members@,
{
    let r = dao.members.clone();
    proof {
        assert(r@ =~= dao.members@);
    }
    r
}

/// Whether `member` belongs to the organisation.
pub fn is_member(dao: &DaoContract, member: &Address) -> (r: bool)
    ensures
        r == dao.has_member(member@),
{
    contains(&dao.members, member)
}

/// The number of members.
pub fn total(dao: &DaoContract) -> (r: usize)
    ensures
        r == dao.members@.len(),
{
    dao.members.len()
}

} // verus!
