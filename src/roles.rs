//! Roles and how groups grant them.
use crate::config::Config;
use crate::patch::{bucket_view, find_first};
use vstd::prelude::*;

verus! {

/// What a user may do.
#[derive(Clone, Copy, Debug, PartialEq, Eq, PartialOrd, Ord, Hash, Structural)]
pub enum Roles {
    /// View the record list.
    PigViewer,
    /// Create, change and delete records.
    PigEditor,
    /// Create and resolve imports.
    BulkEditor,
    /// See and change the imports of other users.
    BulkAdmin,
    /// See details of all users.
    UserViewer,
    /// End user sessions.
    UserAdmin,
    /// Read the audit log.
    LogViewer,
}

/// Every role, in declaration order.
pub open spec fn all_roles() -> Seq<Roles> {
    seq![
        Roles::PigViewer,
        Roles::PigEditor,
        Roles::BulkEditor,
        Roles::BulkAdmin,
        Roles::UserViewer,
        Roles::UserAdmin,
        Roles::LogViewer,
    ]
}

/// The position of a role in declaration order.
pub open spec fn role_index(role: Roles) -> int {
    match role {
        Roles::PigViewer => 0,
        Roles::PigEditor => 1,
        Roles::BulkEditor => 2,
        Roles::BulkAdmin => 3,
        Roles::UserViewer => 4,
        Roles::UserAdmin => 5,
        Roles::LogViewer => 6,
    }
}

proof fn lemma_role_index()
    ensures
        all_roles().len() == 7,
        forall|k: int| 0 <= k < 7 ==> role_index(#[trigger] all_roles()[k]) == k,
        forall|role: Roles| all_roles()[role_index(role)] == role,
{
    assert forall|k: int| 0 <= k < 7 implies role_index(#[trigger] all_roles()[k]) == k by {
        if k == 0 {
        } else if k == 1 {
        } else if k == 2 {
        } else if k == 3 {
        } else if k == 4 {
        } else if k == 5 {
        } else {
        }
    }
}

impl Roles {
    /// Every role, in declaration order.
    pub fn values() -> (r: Vec<Roles>)
        ensures
            r@ == all_roles(),
    {
        let r = vec![
            Roles::PigViewer,
            Roles::PigEditor,
            Roles::BulkEditor,
            Roles::BulkAdmin,
            Roles::UserViewer,
            Roles::UserAdmin,
            Roles::LogViewer,
        ];
        assert(r@ =~= all_roles());
        r
    }
}

/// A group the server recognises and the roles it grants.
#[derive(Debug, Clone)]
pub struct RoleGroup {
    pub name: String,
    pub roles: Vec<Roles>,
}

/// Whether one of `groups` that `user_groups` names grants `role`.
pub open spec fn granted(groups: Seq<RoleGroup>, user_groups: Seq<Seq<char>>, role: Roles) -> bool {
    exists|g: int|
        0 <= g < groups.len() && user_groups.contains(#[trigger] groups[g].name@)
            && groups[g].roles@.contains(role)
}

/// Whether a user in `user_groups` has `role`: always without a sign-in
/// provider or without configured groups, else when a group grants it.
pub open spec fn has_role_spec(config: Config, user_groups: Seq<Seq<char>>, role: Roles) -> bool {
    config.oidc is None || config.groups@.len() == 0 || granted(config.groups@, user_groups, role)
}

pub(crate) fn contains_role(roles: &Vec<Roles>, role: Roles) -> (r: bool)
    ensures
        r == roles@.contains(role),
{
    let mut i: usize = 0;
    while i < roles.len()
        invariant
            0 <= i <= roles.len(),
            forall|j: int| 0 <= j < i ==> roles@[j] != role,
        decreases roles.len() - i,
    {
        if roles[i] == role {
            return true;
        }
        i = i + 1;
    }
    false
}

fn group_grants(groups: &Vec<RoleGroup>, user_groups: &Vec<String>, role: Roles) -> (r: bool)
    ensures
        r == granted(groups@, bucket_view(user_groups@), role),
{
    let ghost names = bucket_view(user_groups@);
    let mut g: usize = 0;
    while g < groups.len()
        invariant
            0 <= g <= groups.len(),
            names == bucket_view(user_groups@),
            forall|k: int|
                0 <= k < g ==> !(names.contains(#[trigger] groups@[k].name@) && groups@[k].roles@.contains(
                    role,
                )),
        decreases groups.len() - g,
    {
        let pos = find_first(user_groups, &groups[g].name);
        proof {
            names.index_of_first_ensures(groups@[g as int].name@);
        }
        if pos.is_some() && contains_role(&groups[g].roles, role) {
            return true;
        }
        g = g + 1;
    }
    false
}

/// Whether a user in `user_groups` has `role` under `config`.
pub fn user_has_role(config: &Config, user_groups: &Vec<String>, role: Roles) -> (r: bool)
    ensures
        r == has_role_spec(*config, bucket_view(user_groups@), role),
{
    if config.oidc.is_none() || config.groups.len() == 0 {
        return true;
    }
    group_grants(&config.groups, user_groups, role)
}

/// Every role a user in `user_groups` has under `config`, in declaration
/// order, each once.
pub fn get_user_roles(config: &Config, user_groups: &Vec<String>) -> (r: Vec<Roles>)
    ensures
        forall|role: Roles| r@.contains(role) <==> has_role_spec(*config, bucket_view(user_groups@), role),
        r@.no_duplicates(),
{
    let all = Roles::values();
    let mut r: Vec<Roles> = Vec::new();
    let mut i: usize = 0;
    while i < all.len()
        invariant
            0 <= i <= all.len(),
            all@ == all_roles(),
            forall|k: int| 0 <= k < r@.len() ==> exists|j: int| 0 <= j < i && all@[j] == #[trigger] r@[k],
            forall|j: int|
                0 <= j < i ==> (r@.contains(#[trigger] all@[j]) <==> has_role_spec(
                    *config,
                    bucket_view(user_groups@),
                    all@[j],
                )),
            r@.no_duplicates(),
        decreases all.len() - i,
    {
        let role = all[i];
        if user_has_role(config, user_groups, role) {
            proof {
                assert(!r@.contains(role)) by {
                    if r@.contains(role) {
                        let k = choose|k: int| 0 <= k < r@.len() && r@[k] == role;
                        let j = choose|j: int| 0 <= j < i && all@[j] == r@[k];
                    }
                }
            }
            let ghost old_r = r@;
            r.push(role);
            proof {
                assert(r@ == old_r.push(role));
                assert forall|k: int| 0 <= k < r@.len() implies exists|j: int|
                    0 <= j < i + 1 && all@[j] == #[trigger] r@[k] by {
                    if k == r@.len() - 1 {
                        assert(all@[i as int] == r@[k]);
                    } else {
                        let j = choose|j: int| 0 <= j < i && all@[j] == old_r[k];
                        assert(all@[j] == r@[k]);
                    }
                }
                assert forall|j: int| 0 <= j < i + 1 implies (r@.contains(#[trigger] all@[j]) <==> has_role_spec(
                    *config,
                    bucket_view(user_groups@),
                    all@[j],
                )) by {
                    if j < i {
                        lemma_role_index();
                        assert(role_index(all@[j]) == j);
                        assert(all@[j] != role);
                        if old_r.contains(all@[j]) {
                            let k = choose|k: int| 0 <= k < old_r.len() && old_r[k] == all@[j];
                            assert(r@[k] == all@[j]);
                        }
                        if r@.contains(all@[j]) {
                            let k = choose|k: int| 0 <= k < r@.len() && r@[k] == all@[j];
                            if k < old_r.len() {
                                assert(old_r[k] == all@[j]);
                            }
                        }
                    } else {
                        assert(r@[r@.len() - 1] == role);
                    }
                }
            }
        } else {
            proof {
                assert(!r@.contains(role)) by {
                    if r@.contains(role) {
                        let k = choose|k: int| 0 <= k < r@.len() && r@[k] == role;
                        let j = choose|j: int| 0 <= j < i && all@[j] == r@[k];
                    }
                }
            }
        }
        i = i + 1;
    }
    proof {
        lemma_role_index();
        assert forall|role: Roles| r@.contains(role) <==> has_role_spec(*config, bucket_view(user_groups@), role) by {
            assert(all@[role_index(role)] == role);
        }
    }
    r
}

} // verus!
