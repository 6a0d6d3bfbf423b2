use vstd::prelude::*;

verus! {

/// One ignore-list record: a user name, and whether only the user's image
/// is to be replaced rather than the user skipped altogether.
#[derive(Clone, PartialEq, Eq, Debug)]
pub struct IgnoreDetail {
    pub name: String,
    pub image_only: bool,
}

/// One parsed ignore-list entry: either a bare user name, or a detailed
/// record.
#[derive(Clone, PartialEq, Eq, Debug)]
pub enum IgnoreEntry {
    User(String),
    Detail(IgnoreDetail),
}

/// The name an entry speaks of.
pub open spec fn entry_name(e: IgnoreEntry) -> Seq<char> {
    match e {
        IgnoreEntry::User(u) => u@,
        IgnoreEntry::Detail(d) => d.name@,
    }
}

/// The record an entry stands for: a bare name means the user is skipped
/// altogether, not just their image.
pub open spec fn entry_detail(e: IgnoreEntry) -> (Seq<char>, bool) {
    match e {
        IgnoreEntry::User(u) => (u@, false),
        IgnoreEntry::Detail(d) => (d.name@, d.image_only),
    }
}

impl IgnoreEntry {
    /// The record this entry stands for: a bare name means the whole user
    /// is skipped, not just their image.
    pub fn detail(&self) -> (r: IgnoreDetail)
        ensures
            (r.name@, r.image_only) == entry_detail(*self),
    {
        match self {
            IgnoreEntry::User(u) => IgnoreDetail { name: u.clone(), image_only: false },
            IgnoreEntry::Detail(d) => IgnoreDetail {
                name: d.name.clone(),
                image_only: d.image_only,
            },
        }
    }
}

/// The first entry naming `user`, as its record; `None` when no entry does.
pub open spec fn spec_get(entries: Seq<IgnoreEntry>, user: Seq<char>) -> Option<(Seq<char>, bool)>
    decreases entries.len(),
{
    if entries.len() == 0 {
        None
    } else if entry_name(entries[0]) == user {
        Some(entry_detail(entries[0]))
    } else {
        spec_get(entries.drop_first(), user)
    }
}

/// A record is found exactly when some entry names the user.
pub proof fn lemma_spec_get_found(entries: Seq<IgnoreEntry>, user: Seq<char>)
    ensures
        spec_get(entries, user).is_some() <==> exists|i: int|
            0 <= i < entries.len() && entry_name(#[trigger] entries[i]) == user,
    decreases entries.len(),
{
    if entries.len() > 0 {
        lemma_spec_get_found(entries.drop_first(), user);
        if entry_name(entries[0]) == user {
        } else {
            assert forall|i: int|
                0 <= i < entries.len() && entry_name(#[trigger] entries[i]) == user implies
                spec_get(entries, user).is_some() by {
                assert(entries.drop_first()[i - 1] == entries[i]);
            }
            if spec_get(entries, user).is_some() {
                let i = choose|i: int|
                    0 <= i < entries.drop_first().len() && entry_name(
                        #[trigger] entries.drop_first()[i],
                    ) == user;
                assert(entry_name(entries[i + 1]) == user);
            }
        }
    }
}

/// The parsed ignore list, in file order.
#[derive(Clone, PartialEq, Eq, Debug)]
pub struct Ignore(pub Vec<IgnoreEntry>);

impl Default for Ignore {
    /// An empty list: nobody is skipped.
    fn default() -> (r: Ignore)
        ensures
            r.0@.len() == 0,
    {
        Ignore(Vec::new())
    }
}

impl Ignore {
    /// Finds the first entry naming `user` and hands its record back.
    pub fn get(&self, user: &String) -> (r: Option<IgnoreDetail>)
        ensures
            ({
                let g = spec_get(self.0@, user@);
                match r {
                    Some(d) => g == Some((d.name@, d.image_only)),
                    None => g.is_none(),
                }
            }),
    {
        let ghost full = self.0@;
        proof {
            assert(full.skip(0) =~= full);
        }
        let mut i: usize = 0;
        while i < self.0.len()
            invariant
                i <= full.len(),
                full == self.0@,
                spec_get(full, user@) == spec_get(full.skip(i as int), user@),
            decreases full.len() - i,
        {
            proof {
                assert(full.skip(i as int).drop_first() =~= full.skip(i as int + 1));
                assert(full.skip(i as int)[0] == full[i as int]);
            }
            let hit = match &self.0[i] {
                IgnoreEntry::User(u) => *u == *user,
                IgnoreEntry::Detail(d) => d.name == *user,
            };
            if hit {
                return Some(self.0[i].detail());
            }
            i += 1;
        }
        proof {
            assert(full.skip(full.len() as int) =~= Seq::<IgnoreEntry>::empty());
        }
        None
    }

    /// Whether the user is skipped altogether: listed, and not marked
    /// image-only.
    pub fn skip(&self, user: &String) -> (r: bool)
        ensures
            r == match spec_get(self.0@, user@) {
                Some(d) => !d.1,
                None => false,
            },
    {
        match self.get(user) {
            Some(e) => !e.image_only,
            None => false,
        }
    }

    /// Whether the user's image is replaced by the default one: any listing
    /// does that.
    pub fn skip_image(&self, user: &String) -> (r: bool)
        ensures
            r == spec_get(self.0@, user@).is_some(),
    {
        self.get(user).is_some()
    }
}

} // verus!
