//! Vibe groups: the categories that vibes belong to.

use crate::aggregate::Step;
use crate::error::DatabaseError;
use crate::statement::{
    begin, draft_of, ints_can_bind, ints_fit, push_bind_int, push_bind_ints, push_bind_text,
    push_sql, text_can_bind, text_fits, Bind, Draft, Statement,
};
use crate::text::same_text;
use crate::vibe::{contains_id, has_id, Vibe};
use vstd::prelude::*;

verus! {

/// The columns of a vibe group.
pub const SELECT_GROUPS: &'static str = "SELECT vibe_group_id AS id, name FROM vibe_groups";

/// The columns of a vibe, read through its group.
pub const SELECT_GROUP_VIBES: &'static str =
    "SELECT vb.vibe_id AS id, vb.name AS name, vg.name AS group_name FROM vibe_groups AS vg JOIN vibes AS vb ON vg.vibe_group_id = vb.vibe_group";

/// The number of vibe groups.
pub const COUNT_GROUPS: &'static str = "SELECT COUNT(*) AS groups_count FROM vibe_groups";

/// A vibe group: a named category of vibes. Names of groups are unique.
#[derive(Debug, Default, PartialEq, Eq)]
pub struct VibeGroup {
    pub id: i32,
    pub name: String,
}

impl Clone for VibeGroup {
    fn clone(&self) -> (copy: Self)
        ensures
            copy == *self,
    {
        VibeGroup { id: self.id, name: self.name.clone() }
    }
}

/// A vibe group and the vibes that belong to it.
#[derive(Debug, Default, Clone, PartialEq, Eq)]
pub struct VibeGroupFull {
    pub group: VibeGroup,
    pub vibes: Vec<Vibe>,
}

/// The two statements that read one group: its own row, and its vibes.
pub struct GroupLookup {
    pub group: Statement,
    pub vibes: Statement,
}

/// Those of `vibes` that belong to the group named `group`, each identifier
/// once, in their order.
pub open spec fn members(vibes: Seq<Vibe>, group: Seq<char>) -> Seq<Vibe>
    decreases vibes.len(),
{
    if vibes.len() == 0 {
        Seq::empty()
    } else {
        let before = members(vibes.drop_last(), group);
        if vibes.last().group_name@ == group && !has_id(before, vibes.last().id) {
            before.push(vibes.last())
        } else {
            before
        }
    }
}

/// The identifiers of `groups`, in order.
pub open spec fn group_ids_of(groups: Seq<VibeGroup>) -> Seq<i32> {
    groups.map_values(|g: VibeGroup| g.id)
}

/// The statement that reads the vibes of the groups `ids`.
pub open spec fn group_vibes_draft(ids: Seq<i32>) -> Draft {
    Draft::start(SELECT_GROUP_VIBES@).sql(" WHERE vg.vibe_group_id = ANY("@).bind(
        Bind::Ints(ids),
    ).sql(")"@)
}

impl VibeGroupFull {
    /// The statements that read the group with identifier `id` and its
    /// vibes.
    pub fn get_by_id(id: i32) -> (lookup: GroupLookup)
        ensures
            draft_of(lookup.group) == Draft::start(SELECT_GROUPS@).sql(
                " WHERE vibe_group_id = "@,
            ).bind(Bind::Int(id)),
            draft_of(lookup.vibes) == Draft::start(SELECT_GROUP_VIBES@).sql(
                " WHERE vg.vibe_group_id = "@,
            ).bind(Bind::Int(id)),
    {
        let mut group = begin(SELECT_GROUPS);
        push_sql(&mut group, " WHERE vibe_group_id = ");
        push_bind_int(&mut group, id);
        let mut vibes = begin(SELECT_GROUP_VIBES);
        push_sql(&mut vibes, " WHERE vg.vibe_group_id = ");
        push_bind_int(&mut vibes, id);
        GroupLookup { group, vibes }
    }

    /// The statements that read the group named `name` and its vibes. A
    /// name too long to be bound is a validation error.
    pub fn get_by_name(name: &str) -> (r: Result<GroupLookup, DatabaseError>)
        ensures
            match r {
                Ok(lookup) => {
                    &&& text_fits(name@)
                    &&& draft_of(lookup.group) == Draft::start(SELECT_GROUPS@).sql(
                        " WHERE name = "@,
                    ).bind(Bind::Text(name@))
                    &&& draft_of(lookup.vibes) == Draft::start(SELECT_GROUP_VIBES@).sql(
                        " WHERE vg.name = "@,
                    ).bind(Bind::Text(name@))
                },
                Err(e) => !text_fits(name@) && e == DatabaseError::ValidationError,
            },
    {
        if !text_can_bind(name) {
            return Err(DatabaseError::ValidationError);
        }
        let mut group = begin(SELECT_GROUPS);
        push_sql(&mut group, " WHERE name = ");
        push_bind_text(&mut group, name);
        let mut vibes = begin(SELECT_GROUP_VIBES);
        push_sql(&mut vibes, " WHERE vg.name = ");
        push_bind_text(&mut vibes, name);
        Ok(GroupLookup { group, vibes })
    }

    /// The statement that reads every group.
    pub fn get_all() -> (q: Statement)
        ensures
            draft_of(q) == Draft::start(SELECT_GROUPS@),
    {
        begin(SELECT_GROUPS)
    }

    /// The statement that counts the groups.
    pub fn count() -> (q: Statement)
        ensures
            draft_of(q) == Draft::start(COUNT_GROUPS@),
    {
        begin(COUNT_GROUPS)
    }

    /// The number of groups that the store reported, or -1 where it
    /// reported none.
    pub fn counted(reported: Option<i64>) -> (n: i64)
        ensures
            n == match reported {
                Some(c) => c,
                None => -1i64,
            },
    {
        match reported {
            Some(c) => c,
            None => -1,
        }
    }

    /// The group `group` with those of `vibes` that belong to it, each
    /// identifier once.
    pub fn with_vibes(group: VibeGroup, vibes: &Vec<Vibe>) -> (full: VibeGroupFull)
        ensures
            full.group == group,
            full.vibes@ == members(vibes@, group.name@),
    {
        let mut own: Vec<Vibe> = Vec::new();
        let mut i: usize = 0;
        while i < vibes.len()
            invariant
                i <= vibes.len(),
                own@ == members(vibes@.take(i as int), group.name@),
            decreases vibes.len() - i,
        {
            proof {
                assert(vibes@.take(i + 1).drop_last() =~= vibes@.take(i as int));
            }
            if same_text(vibes[i].group_name.as_str(), group.name.as_str()) && !contains_id(
                &own,
                vibes[i].id,
            ) {
                own.push(vibes[i].clone());
            }
            i += 1;
        }
        proof {
            assert(vibes@.take(i as int) =~= vibes@);
        }
        VibeGroupFull { group, vibes: own }
    }

    /// What to do once the groups `groups` are read: with no group there is
    /// nothing to look up and the result is empty; otherwise the vibes of
    /// all the groups are looked up in one go. More groups than one array
    /// can name cannot be looked up.
    pub fn load(groups: &Vec<VibeGroup>) -> (r: Result<Step<Vec<VibeGroupFull>>, DatabaseError>)
        ensures
            match r {
                Ok(Step::Done(full)) => groups@.len() == 0 && full@.len() == 0,
                Ok(Step::Ask(q)) => groups@.len() > 0 && ints_fit(groups@.len()) && draft_of(q)
                    == group_vibes_draft(group_ids_of(groups@)),
                Err(e) => groups@.len() > 0 && !ints_fit(groups@.len()) && e
                    == DatabaseError::DatabaseError,
            },
    {
        if groups.len() == 0 {
            return Ok(Step::Done(Vec::new()));
        }
        let mut ids: Vec<i32> = Vec::new();
        let mut i: usize = 0;
        while i < groups.len()
            invariant
                i <= groups.len(),
                ids@ == group_ids_of(groups@.take(i as int)),
            decreases groups.len() - i,
        {
            proof {
                assert(group_ids_of(groups@.take(i + 1)) =~= group_ids_of(
                    groups@.take(i as int),
                ).push(groups@[i as int].id));
            }
            ids.push(groups[i].id);
            i += 1;
        }
        proof {
            assert(groups@.take(i as int) =~= groups@);
        }
        if !ints_can_bind(&ids) {
            return Err(DatabaseError::DatabaseError);
        }
        let mut q = begin(SELECT_GROUP_VIBES);
        push_sql(&mut q, " WHERE vg.vibe_group_id = ANY(");
        push_bind_ints(&mut q, &ids);
        push_sql(&mut q, ")");
        Ok(Step::Ask(q))
    }

    /// The groups `groups`, in order, each with those of `vibes` that
    /// belong to it.
    pub fn assemble(groups: &Vec<VibeGroup>, vibes: &Vec<Vibe>) -> (full: Vec<VibeGroupFull>)
        ensures
            full@.len() == groups@.len(),
            forall|i: int|
                0 <= i < full@.len() ==> (#[trigger] full@[i]).group == groups@[i] && full@[i].vibes@
                    == members(vibes@, groups@[i].name@),
    {
        let mut full: Vec<VibeGroupFull> = Vec::new();
        let mut i: usize = 0;
        while i < groups.len()
            invariant
                i <= groups.len(),
                full@.len() == i,
                forall|j: int|
                    0 <= j < i ==> (#[trigger] full@[j]).group == groups@[j] && full@[j].vibes@
                        == members(vibes@, groups@[j].name@),
            decreases groups.len() - i,
        {
            let one = VibeGroupFull::with_vibes(groups[i].clone(), vibes);
            full.push(one);
            i += 1;
        }
        full
    }
}

} // verus!
