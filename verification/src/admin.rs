//! The root record with the super administrator, the payment settings, and
//! the list of administrators.

use vstd::prelude::*;
use vstd::array::{spec_array_fill_for_copy_type, spec_array_update};
use crate::errors::SpinError;
use crate::identity::Identity;

verus! {

/// The root record: who may change the list of administrators, and the bump
/// of the address the record lives at.
#[derive(Clone, Copy, Debug, PartialEq, Eq)]
pub struct Pool {
    pub superadmin: Identity,
    pub bump: u8,
}

impl Pool {
    /// The root record before it is set up.
    pub open spec fn empty() -> Pool {
        Pool { superadmin: Identity::zero(), bump: 0 }
    }

    /// Whether `caller` is the super administrator of this record.
    pub fn is_superadmin(&self, caller: &Identity) -> (yes: bool)
        ensures
            yes == (self.superadmin == *caller),
    {
        self.superadmin == *caller
    }
}

impl Default for Pool {
    fn default() -> (pool: Pool)
        ensures
            pool == Pool::empty(),
    {
        Pool { superadmin: Identity::default(), bump: 0 }
    }
}

/// What a spin costs: in a token, and in the native currency.
#[derive(Clone, Copy, Debug, PartialEq, Eq)]
pub struct SettingInfo {
    pub payment_token: Identity,
    pub payment_amount: u64,
    pub payment_solamount: u64,
}

impl SettingInfo {
    /// The settings before they are set.
    pub open spec fn empty() -> SettingInfo {
        SettingInfo { payment_token: Identity::zero(), payment_amount: 0, payment_solamount: 0 }
    }
}

impl Default for SettingInfo {
    fn default() -> (settings: SettingInfo)
        ensures
            settings == SettingInfo::empty(),
    {
        SettingInfo { payment_token: Identity::default(), payment_amount: 0, payment_solamount: 0 }
    }
}

/// The administrators: the first `count` entries of `admin_list`, in no
/// particular order. The same administrator may have been added twice.
#[derive(Clone, Copy, Debug, PartialEq, Eq)]
pub struct AdminInfo {
    pub admin_list: [Identity; 15],
    pub count: u8,
}

impl View for AdminInfo {
    type V = Seq<Identity>;

    /// The administrators, in the order the list holds them.
    open spec fn view(&self) -> Seq<Identity> {
        self.admin_list@.take(self.count as int)
    }
}

/// Whether `at` is the first place in `list` where `admin` stands.
pub open spec fn is_first_position(list: Seq<Identity>, admin: Identity, at: int) -> bool {
    &&& 0 <= at < list.len()
    &&& list[at] == admin
    &&& forall|before: int| 0 <= before < at ==> list[before] != admin
}

impl AdminInfo {
    /// The list holds no more administrators than it has room for.
    pub open spec fn wf(self) -> bool {
        self.count <= 15
    }

    /// The list without administrators, every entry the zero address.
    pub open spec fn empty() -> AdminInfo {
        AdminInfo {
            admin_list: spec_array_fill_for_copy_type::<Identity, 15>(Identity::zero()),
            count: 0,
        }
    }

    /// What adding `admin` gives: the list with `admin` written behind the
    /// administrators it holds, or `CountOverflowAddItem` where it holds
    /// fifteen already.
    pub open spec fn try_added(self, admin: Identity) -> Result<AdminInfo, SpinError> {
        if self.count < 15 {
            Ok(
                AdminInfo {
                    admin_list: spec_array_update(self.admin_list, self.count as int, admin),
                    count: (self.count + 1) as u8,
                },
            )
        } else {
            Err(SpinError::CountOverflowAddItem)
        }
    }

    /// The list after the administrator at `at` was replaced by the last
    /// one, and the last place given up.
    pub open spec fn removed_at(self, at: int) -> AdminInfo {
        AdminInfo {
            admin_list: spec_array_update(self.admin_list, at, self.admin_list[self.count - 1]),
            count: (self.count - 1) as u8,
        }
    }

    /// The list after `admin` was removed from the first place where it
    /// stands. A list that does not hold `admin` stays as it is.
    pub open spec fn removed(self, admin: Identity) -> AdminInfo {
        if self@.contains(admin) {
            self.removed_at(choose|at: int| is_first_position(self@, admin, at))
        } else {
            self
        }
    }

    /// Whether the list does what `wf` asks.
    pub fn is_wf(&self) -> (ok: bool)
        ensures
            ok == self.wf(),
    {
        self.count <= 15
    }

    /// Whether `admin` is one of the administrators.
    pub fn is_admin(&self, admin: &Identity) -> (yes: bool)
        requires
            self.wf(),
        ensures
            yes == self@.contains(*admin),
    {
        let mut i: u8 = 0;
        while i < self.count
            invariant
                i <= self.count <= 15,
                forall|j: int| 0 <= j < i ==> self@[j] != *admin,
            decreases self.count - i,
        {
            if self.admin_list[i as usize] == *admin {
                assert(self@[i as int] == *admin);
                return true;
            }
            i += 1;
        }
        false
    }

    /// Adds an administrator, whether or not the list holds it already. A
    /// list of fifteen is left as it is and `CountOverflowAddItem` is returned.
    pub fn add_admin(&mut self, admin: Identity) -> (done: Result<(), SpinError>)
        ensures
            done is Ok <==> old(self).count < 15,
            match old(self).try_added(admin) {
                Ok(next) => done is Ok && *final(self) == next,
                Err(e) => done == Err::<(), SpinError>(e) && *final(self) == *old(self),
            },
            done is Ok ==> final(self)@ == old(self)@.push(admin),
            old(self).wf() ==> final(self).wf(),
    {
        if self.count >= 15 {
            return Err(SpinError::CountOverflowAddItem);
        }
        self.admin_list[self.count as usize] = admin;
        self.count += 1;
        proof {
            assert(self.admin_list =~= old(self).try_added(admin)->Ok_0.admin_list);
            assert(self@ =~= old(self)@.push(admin));
        }
        Ok(())
    }

    /// Removes `admin` from the first place where it stands: the last
    /// administrator takes that place, and the list is one shorter. A list
    /// that does not hold `admin` is left as it is. Never fails.
    pub fn delete_admin(&mut self, admin: Identity) -> (done: Result<(), SpinError>)
        requires
            old(self).wf(),
        ensures
            done is Ok,
            *final(self) == old(self).removed(admin),
            old(self)@.contains(admin) ==> final(self).count == old(self).count - 1,
            !old(self)@.contains(admin) ==> *final(self) == *old(self),
            final(self).wf(),
    {
        let mut i: u8 = 0;
        while i < self.count
            invariant
                *self == *old(self),
                i <= self.count <= 15,
                forall|j: int| 0 <= j < i ==> self@[j] != admin,
            decreases self.count - i,
        {
            if self.admin_list[i as usize] == admin {
                proof {
                    assert(is_first_position(self@, admin, i as int));
                    let chosen = choose|at: int| is_first_position(self@, admin, at);
                    assert(chosen == i);
                }
                self.admin_list[i as usize] = self.admin_list[self.count as usize - 1];
                self.count -= 1;
                proof {
                    assert(self.admin_list =~= old(self).removed_at(i as int).admin_list);
                }
                return Ok(());
            }
            i += 1;
        }
        Ok(())
    }
}

impl Default for AdminInfo {
    fn default() -> (admins: AdminInfo)
        ensures
            admins == AdminInfo::empty(),
            admins@ == Seq::<Identity>::empty(),
    {
        let admins = AdminInfo { admin_list: [Identity::default();15], count: 0 };
        proof {
            assert(admins@ =~= Seq::<Identity>::empty());
        }
        admins
    }
}

/// Removing the administrator at `at` puts the last administrator in that
/// place and drops the last place.
pub proof fn lemma_removed_at(admins: AdminInfo, at: int)
    requires
        admins.wf(),
        0 <= at < admins.count,
    ensures
        admins.removed_at(at)@ == admins@.update(at, admins@.last()).drop_last(),
{
    broadcast use vstd::array::group_array_axioms;

    assert(admins.removed_at(at)@ =~= admins@.update(at, admins@.last()).drop_last());
}

/// The place where an administrator first stands in the list is the place
/// that `removed` frees.
pub proof fn lemma_removed_from_first_position(admins: AdminInfo, admin: Identity, at: int)
    requires
        is_first_position(admins@, admin, at),
    ensures
        admins.removed(admin) == admins.removed_at(at),
{
    assert(admins@.contains(admin));
    let chosen = choose|at: int| is_first_position(admins@, admin, at);
    assert(chosen == at);
}

/// Adding an administrator that the list does not hold, and removing it
/// again, brings the number of administrators back to what it was and gives
/// the same administrators in the same order, the added one not among them.
pub proof fn lemma_add_then_remove(admins: AdminInfo, admin: Identity)
    requires
        admins.count < 15,
        !admins@.contains(admin),
    ensures
        admins.try_added(admin) matches Ok(added) && added@ == admins@.push(admin)
            && added.removed(admin).count == admins.count && added.removed(admin)@ == admins@
            && !added.removed(admin)@.contains(admin),
{
    broadcast use vstd::array::group_array_axioms;

    let added = admins.try_added(admin)->Ok_0;
    assert(added@ =~= admins@.push(admin));
    assert forall|before: int| 0 <= before < admins.count implies added@[before] != admin by {
        assert(admins@[before] == added@[before]);
    }
    assert(is_first_position(added@, admin, admins.count as int));
    lemma_removed_from_first_position(added, admin, admins.count as int);
    assert(added.removed(admin)@ =~= admins@);
}

/// Removing an identity that is not an administrator changes nothing: not
/// the number of administrators, not who they are, not a byte of the list.
pub proof fn lemma_remove_absent(admins: AdminInfo, admin: Identity)
    requires
        !admins@.contains(admin),
    ensures
        admins.removed(admin) == admins,
        admins.removed(admin).count == admins.count,
        admins.removed(admin)@ == admins@,
{
}

/// Removing an administrator makes the list one shorter, and leaves on it
/// only administrators that it held before.
pub proof fn lemma_remove_present(admins: AdminInfo, admin: Identity)
    requires
        admins.wf(),
        admins@.contains(admin),
    ensures
        admins.removed(admin).count == admins.count - 1,
        forall|other: Identity|
            admins.removed(admin)@.contains(other) ==> #[trigger] admins@.contains(other),
{
    broadcast use vstd::array::group_array_axioms;

    let i = choose|i: int| 0 <= i < admins@.len() && admins@[i] == admin;
    lemma_first_position_exists(admins@, admin, i);
    let at = choose|at: int| is_first_position(admins@, admin, at);
    lemma_removed_from_first_position(admins, admin, at);
    lemma_removed_at(admins, at);
    let removed = admins.removed(admin);
    assert forall|other: Identity| removed@.contains(other) implies #[trigger] admins@.contains(
        other,
    ) by {
        let j = choose|j: int| 0 <= j < removed@.len() && removed@[j] == other;
        if j == at {
            assert(admins@[admins.count - 1] == other);
        } else {
            assert(admins@[j] == other);
        }
    }
}

/// An identity that stands somewhere in the list stands somewhere first.
pub proof fn lemma_first_position_exists(list: Seq<Identity>, admin: Identity, at: int)
    requires
        0 <= at < list.len(),
        list[at] == admin,
    ensures
        exists|first: int| is_first_position(list, admin, first),
    decreases at,
{
    if exists|before: int| 0 <= before < at && list[before] == admin {
        let before = choose|before: int| 0 <= before < at && list[before] == admin;
        lemma_first_position_exists(list, admin, before);
    } else {
        assert(is_first_position(list, admin, at));
    }
}

} // verus!
