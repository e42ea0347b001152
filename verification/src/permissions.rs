//! Roles, the group identifiers that grant them, and how a member's
//! groups resolve to one effective role.

use crate::text::same_text;
use vstd::prelude::*;

verus! {

/// What a member may be, from the most to the least trusted.
#[derive(Clone, Copy, Debug, PartialEq, Eq, Structural)]
pub enum DiscordRole {
    PlatformAdmin,
    Admin,
    Moderator,
    LeadScenarist,
    Scenarist,
    User,
}

/// The group identifier under which a role is announced, `"none"` for a
/// role that no group stands for.
pub open spec fn role_id_of(role: DiscordRole) -> Seq<char> {
    match role {
        DiscordRole::Admin => "1166362118778523748"@,
        DiscordRole::Moderator => "1259573584767090699"@,
        DiscordRole::LeadScenarist => "1143632282926727328"@,
        DiscordRole::Scenarist => "1143509784591605841"@,
        _ => "none"@,
    }
}

/// The role that membership of group `id` grants, if `id` is a known group.
pub open spec fn role_of_id(id: Seq<char>) -> Option<DiscordRole> {
    if id == "1031296249254658138"@ {
        Some(DiscordRole::Admin)
    } else if id == "1259573584767090699"@ {
        Some(DiscordRole::Moderator)
    } else if id == "1143632282926727328"@ {
        Some(DiscordRole::LeadScenarist)
    } else if id == "1143509784591605841"@ {
        Some(DiscordRole::Scenarist)
    } else {
        None
    }
}

/// A line that tells a reader what a holder of the role does.
pub open spec fn summary_of(role: DiscordRole) -> Seq<char> {
    match role {
        DiscordRole::Admin => "Cette personne est un administrateur."@,
        DiscordRole::Moderator => "Cette personne est chargée d’appliquer la modération."@,
        DiscordRole::LeadScenarist =>
            "Cette personne est un chef scénariste.\nIl décide de l'acceptation finale de votre fiche."@,
        DiscordRole::Scenarist =>
            "Cette personne est un scénariste.\n Il donne son avis sur votre fiche.\nIl peut vous demander des modifications ou la refuser."@,
        DiscordRole::User => "Utilisateur"@,
        DiscordRole::PlatformAdmin => "Administrateur platforme"@,
    }
}

/// The colour in which the role is shown, as `#RRGGBB`.
pub open spec fn color_of(role: DiscordRole) -> Seq<char> {
    match role {
        DiscordRole::Admin => "#106888"@,
        DiscordRole::Moderator => "#B8B8B8"@,
        DiscordRole::LeadScenarist => "#046636"@,
        DiscordRole::Scenarist => "#1F8B4C"@,
        DiscordRole::User => "#B8B8B8"@,
        DiscordRole::PlatformAdmin => "#716F90"@,
    }
}

/// The name under which the role is shown.
pub open spec fn name_of(role: DiscordRole) -> Seq<char> {
    match role {
        DiscordRole::PlatformAdmin => "Administrateur de la platforme"@,
        DiscordRole::Admin => "Administrateur"@,
        DiscordRole::Moderator => "Modérateur"@,
        DiscordRole::LeadScenarist => "Responsable scénariste"@,
        DiscordRole::Scenarist => "Scénariste"@,
        DiscordRole::User => "Utilisateur"@,
    }
}

/// The characters of each text of `ids`, in order.
pub open spec fn texts(ids: Seq<String>) -> Seq<Seq<char>> {
    Seq::new(ids.len(), |i: int| ids[i]@)
}

/// The roles that the known groups among `ids` grant, in the order of
/// `ids`; unknown groups leave no trace.
pub open spec fn known_roles(ids: Seq<Seq<char>>) -> Seq<DiscordRole>
    decreases ids.len(),
{
    if ids.len() == 0 {
        seq![]
    } else {
        let earlier = known_roles(ids.drop_last());
        match role_of_id(ids.last()) {
            Some(role) => earlier.push(role),
            None => earlier,
        }
    }
}

/// Whether one of `ids` is the group that grants `role`.
pub open spec fn grants(ids: Seq<Seq<char>>, role: DiscordRole) -> bool {
    exists|i: int| 0 <= i < ids.len() && role_of_id(#[trigger] ids[i]) == Some(role)
}

/// The one role under which a member acts. The whitelist outranks every
/// group; among groups a lead scenarist outranks an administrator, who
/// outranks a scenarist; any other member is a plain user.
pub open spec fn resolved_role(ids: Seq<Seq<char>>, whitelisted: bool) -> DiscordRole {
    if whitelisted {
        DiscordRole::PlatformAdmin
    } else if grants(ids, DiscordRole::LeadScenarist) {
        DiscordRole::LeadScenarist
    } else if grants(ids, DiscordRole::Admin) {
        DiscordRole::Admin
    } else if grants(ids, DiscordRole::Scenarist) {
        DiscordRole::Scenarist
    } else {
        DiscordRole::User
    }
}

/// Whether holders of `role` review sheets.
pub open spec fn staff_role(role: DiscordRole) -> bool {
    role == DiscordRole::PlatformAdmin || role == DiscordRole::Admin || role
        == DiscordRole::LeadScenarist || role == DiscordRole::Scenarist
}

impl DiscordRole {
    /// The group identifier under which the role is announced.
    pub fn role_id(&self) -> (id: &'static str)
        ensures
            id@ == role_id_of(*self),
    {
        match self {
            DiscordRole::Admin => "1166362118778523748",
            DiscordRole::Moderator => "1259573584767090699",
            DiscordRole::LeadScenarist => "1143632282926727328",
            DiscordRole::Scenarist => "1143509784591605841",
            _ => "none",
        }
    }

    /// The role that membership of group `role_id` grants; `None` for a
    /// group that grants nothing.
    pub fn from_role_id(role_id: &str) -> (role: Option<DiscordRole>)
        ensures
            role == role_of_id(role_id@),
    {
        if same_text(role_id, "1031296249254658138") {
            Some(DiscordRole::Admin)
        } else if same_text(role_id, "1259573584767090699") {
            Some(DiscordRole::Moderator)
        } else if same_text(role_id, "1143632282926727328") {
            Some(DiscordRole::LeadScenarist)
        } else if same_text(role_id, "1143509784591605841") {
            Some(DiscordRole::Scenarist)
        } else {
            None
        }
    }

    /// A line that tells a reader what a holder of the role does.
    pub fn role_summary(&self) -> (summary: &'static str)
        ensures
            summary@ == summary_of(*self),
    {
        match self {
            DiscordRole::Admin => "Cette personne est un administrateur.",
            DiscordRole::Moderator => "Cette personne est chargée d’appliquer la modération.",
            DiscordRole::LeadScenarist =>
                "Cette personne est un chef scénariste.\nIl décide de l'acceptation finale de votre fiche.",
            DiscordRole::Scenarist =>
                "Cette personne est un scénariste.\n Il donne son avis sur votre fiche.\nIl peut vous demander des modifications ou la refuser.",
            DiscordRole::User => "Utilisateur",
            DiscordRole::PlatformAdmin => "Administrateur platforme",
        }
    }

    /// The colour in which the role is shown, as `#RRGGBB`.
    pub fn get_color(&self) -> (color: &'static str)
        ensures
            color@ == color_of(*self),
    {
        match self {
            DiscordRole::Admin => "#106888",
            DiscordRole::Moderator => "#B8B8B8",
            DiscordRole::LeadScenarist => "#046636",
            DiscordRole::Scenarist => "#1F8B4C",
            DiscordRole::User => "#B8B8B8",
            DiscordRole::PlatformAdmin => "#716F90",
        }
    }

    /// The name under which the role is shown.
    pub fn to_string(&self) -> (name: String)
        ensures
            name@ == name_of(*self),
    {
        let name: &'static str = match self {
            DiscordRole::PlatformAdmin => "Administrateur de la platforme",
            DiscordRole::Admin => "Administrateur",
            DiscordRole::Moderator => "Modérateur",
            DiscordRole::LeadScenarist => "Responsable scénariste",
            DiscordRole::Scenarist => "Scénariste",
            DiscordRole::User => "Utilisateur",
        };
        name.to_owned()
    }

    /// The roles that the known groups among `role_ids` grant, in order.
    /// Unknown groups are passed over, so the answer is always `Some`.
    pub fn from_role_ids(role_ids: &Vec<String>) -> (roles: Option<Vec<DiscordRole>>)
        ensures
            roles.is_some(),
            roles.unwrap()@ == known_roles(texts(role_ids@)),
    {
        let mut roles: Vec<DiscordRole> = Vec::new();
        let mut i: usize = 0;
        while i < role_ids.len()
            invariant
                i <= role_ids.len(),
                roles@ == known_roles(texts(role_ids@).take(i as int)),
            decreases role_ids.len() - i,
        {
            let found = DiscordRole::from_role_id(role_ids[i].as_str());
            proof {
                let ids = texts(role_ids@);
                assert(ids.take(i + 1).drop_last() =~= ids.take(i as int));
                assert(ids.take(i + 1).last() == role_ids@[i as int]@);
            }
            match found {
                Some(role) => roles.push(role),
                None => {},
            }
            i = i + 1;
        }
        proof {
            let ids = texts(role_ids@);
            assert(ids.take(i as int) =~= ids);
        }
        Some(roles)
    }

    /// Whether `role_id` is the group identifier of this role.
    pub fn matches_role_id(&self, role_id: &str) -> (matches: bool)
        ensures
            matches == (role_id_of(*self) == role_id@),
    {
        same_text(self.role_id(), role_id)
    }

    /// Whether holders of this role review sheets.
    pub fn is_staff(&self) -> (staff: bool)
        ensures
            staff == staff_role(*self),
    {
        match self {
            DiscordRole::PlatformAdmin => true,
            DiscordRole::Admin => true,
            DiscordRole::LeadScenarist => true,
            DiscordRole::Scenarist => true,
            _ => false,
        }
    }

    /// The one role under which a member of the groups `role_ids` acts.
    ///
    /// A whitelisted member is a platform administrator whatever the groups
    /// are. A member of no known group, or only of groups that rank below a
    /// scenarist, is a plain user.
    pub fn resolve(role_ids: &Vec<String>, whitelisted: bool) -> (role: DiscordRole)
        ensures
            role == resolved_role(texts(role_ids@), whitelisted),
            whitelisted ==> role == DiscordRole::PlatformAdmin,
            !whitelisted && (forall|i: int|
                0 <= i < role_ids@.len() ==> role_of_id(#[trigger] role_ids@[i]@).is_none())
                ==> role == DiscordRole::User,
    {
        if whitelisted {
            return DiscordRole::PlatformAdmin;
        }
        let ghost ids = texts(role_ids@);
        let mut lead: bool = false;
        let mut admin: bool = false;
        let mut scenarist: bool = false;
        let mut i: usize = 0;
        while i < role_ids.len()
            invariant
                i <= role_ids.len(),
                ids == texts(role_ids@),
                lead == grants(ids.take(i as int), DiscordRole::LeadScenarist),
                admin == grants(ids.take(i as int), DiscordRole::Admin),
                scenarist == grants(ids.take(i as int), DiscordRole::Scenarist),
            decreases role_ids.len() - i,
        {
            let found = DiscordRole::from_role_id(role_ids[i].as_str());
            proof {
                lemma_grants_step(ids, i as int, DiscordRole::LeadScenarist);
                lemma_grants_step(ids, i as int, DiscordRole::Admin);
                lemma_grants_step(ids, i as int, DiscordRole::Scenarist);
            }
            match found {
                Some(DiscordRole::LeadScenarist) => {
                    lead = true;
                },
                Some(DiscordRole::Admin) => {
                    admin = true;
                },
                Some(DiscordRole::Scenarist) => {
                    scenarist = true;
                },
                _ => {},
            }
            i = i + 1;
        }
        proof {
            assert(ids.take(i as int) =~= ids);
            if forall|k: int| 0 <= k < role_ids@.len() ==> role_of_id(#[trigger] role_ids@[k]@).is_none() {
                assert forall|k: int| 0 <= k < ids.len() implies role_of_id(#[trigger] ids[k]).is_none() by {
                    assert(ids[k] == role_ids@[k]@);
                }
            }
        }
        if lead {
            DiscordRole::LeadScenarist
        } else if admin {
            DiscordRole::Admin
        } else if scenarist {
            DiscordRole::Scenarist
        } else {
            DiscordRole::User
        }
    }
}

/// One more group widens what the groups grant by exactly what that group
/// grants.
proof fn lemma_grants_step(ids: Seq<Seq<char>>, i: int, role: DiscordRole)
    requires
        0 <= i < ids.len(),
    ensures
        grants(ids.take(i + 1), role) == (grants(ids.take(i), role) || role_of_id(ids[i]) == Some(
            role,
        )),
{
    let shorter = ids.take(i);
    let longer = ids.take(i + 1);
    if grants(shorter, role) {
        let k = choose|k: int| 0 <= k < shorter.len() && role_of_id(#[trigger] shorter[k]) == Some(role);
        assert(longer[k] == shorter[k]);
    }
    if role_of_id(ids[i]) == Some(role) {
        assert(longer[i] == ids[i]);
    }
    if grants(longer, role) {
        let k = choose|k: int| 0 <= k < longer.len() && role_of_id(#[trigger] longer[k]) == Some(role);
        if k < i {
            assert(shorter[k] == longer[k]);
        } else {
            assert(longer[k] == ids[i]);
        }
    }
}

/// A member whose groups are all unknown, and who is not whitelisted,
/// resolves to a plain user.
pub proof fn law_unknown_groups_resolve_to_user(ids: Seq<Seq<char>>)
    requires
        forall|i: int| 0 <= i < ids.len() ==> role_of_id(#[trigger] ids[i]).is_none(),
    ensures
        resolved_role(ids, false) == DiscordRole::User,
{
}

/// A whitelisted member resolves to a platform administrator whatever the
/// groups are.
pub proof fn law_whitelist_outranks_groups(ids: Seq<Seq<char>>)
    ensures
        resolved_role(ids, true) == DiscordRole::PlatformAdmin,
{
}

} // verus!
