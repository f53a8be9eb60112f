//! The entry store and user store: three content variants stored under short
//! alphanumeric identifiers, with insert-if-absent, atomic read-and-increment,
//! ownership-checked deletion, and collision-free identifier allocation.

use crate::config::Config;
use crate::store::Tree;
use rand::Rng;
use vstd::prelude::*;

verus! {

/// A stored content record.
pub struct Filite {
    pub owner: String,
    pub creation: i64,
    pub inner: FiliteInner,
    pub views: usize,
}

/// The content carried by an entry: exactly one of a file blob, a redirect
/// target, or a text snippet.
pub enum FiliteInner {
    File { data: Vec<u8>, mime: String },
    Link { location: String },
    Text { data: String },
}

/// An authentication principal.
pub struct User {
    pub id: String,
    pub admin: bool,
    pub password_hash: String,
}

/// The abstract value of a stored entry.
pub struct FiliteView {
    pub owner: Seq<char>,
    pub creation: i64,
    pub inner: FiliteInnerView,
    pub views: usize,
}

/// The abstract value of an entry's content.
pub enum FiliteInnerView {
    File { data: Seq<u8>, mime: Seq<char> },
    Link { location: Seq<char> },
    Text { data: Seq<char> },
}

/// The abstract value of a user record.
pub struct UserView {
    pub id: Seq<char>,
    pub admin: bool,
    pub password_hash: Seq<char>,
}

impl View for FiliteInner {
    type V = FiliteInnerView;

    open spec fn view(&self) -> FiliteInnerView {
        match self {
            FiliteInner::File { data, mime } => FiliteInnerView::File { data: data@, mime: mime@ },
            FiliteInner::Link { location } => FiliteInnerView::Link { location: location@ },
            FiliteInner::Text { data } => FiliteInnerView::Text { data: data@ },
        }
    }
}

impl View for Filite {
    type V = FiliteView;

    open spec fn view(&self) -> FiliteView {
        FiliteView {
            owner: self.owner@,
            creation: self.creation,
            inner: self.inner@,
            views: self.views,
        }
    }
}

impl View for User {
    type V = UserView;

    open spec fn view(&self) -> UserView {
        UserView { id: self.id@, admin: self.admin, password_hash: self.password_hash@ }
    }
}

impl FiliteInner {
    /// A content value equal, piece for piece, to this one.
    pub fn duplicate(&self) -> (r: FiliteInner)
        ensures
            r@ == self@,
    {
        match self {
            FiliteInner::File { data, mime } => FiliteInner::File {
                data: vstd::slice::slice_to_vec(data.as_slice()),
                mime: mime.clone(),
            },
            FiliteInner::Link { location } => FiliteInner::Link { location: location.clone() },
            FiliteInner::Text { data } => FiliteInner::Text { data: data.clone() },
        }
    }
}

impl Filite {
    /// An entry equal, piece for piece, to this one.
    pub fn duplicate(&self) -> (r: Filite)
        ensures
            r@ == self@,
    {
        Filite {
            owner: self.owner.clone(),
            creation: self.creation,
            inner: self.inner.duplicate(),
            views: self.views,
        }
    }
}

impl User {
    /// A user record equal, piece for piece, to this one.
    pub fn duplicate(&self) -> (r: User)
        ensures
            r@ == self@,
    {
        User {
            id: self.id.clone(),
            admin: self.admin,
            password_hash: self.password_hash.clone(),
        }
    }

    /// A line describing the user for diagnostics: the identifier and the
    /// admin flag, never the password hash.
    pub fn debug_string(&self) -> (r: String)
        ensures
            r@ == "User { id: "@ + self.id@ + ", admin: "@ + (if self.admin {
                "true"@
            } else {
                "false"@
            }) + " }"@,
    {
        let mut s = "User { id: ".to_owned();
        s.append(self.id.as_str());
        s.append(", admin: ");
        if self.admin {
            s.append("true");
        } else {
            s.append("false");
        }
        s.append(" }");
        s
    }
}

/// The store handle: the entry namespace and the user namespace, constructed
/// once at startup and passed into every operation.
pub struct Store {
    entries: Tree<Filite>,
    users: Tree<User>,
}

impl Store {
    /// Abstract contents of the entry namespace.
    pub closed spec fn entries(&self) -> Map<Seq<char>, FiliteView> {
        self.entries@
    }

    /// Abstract contents of the user namespace.
    pub closed spec fn users(&self) -> Map<Seq<char>, UserView> {
        self.users@
    }

    /// Well-formed: both namespaces keep their keys unique, and a user record
    /// is stored under its own identifier.
    pub closed spec fn wf(&self) -> bool {
        &&& self.entries.wf()
        &&& self.users.wf()
        &&& forall|k: Seq<char>| #[trigger] self.users@.contains_key(k) ==> self.users@[k].id == k
    }

    /// An empty store.
    pub fn new() -> (s: Store)
        ensures
            s.wf(),
            s.entries() == Map::<Seq<char>, FiliteView>::empty(),
            s.users() == Map::<Seq<char>, UserView>::empty(),
    {
        Store { entries: Tree::new(), users: Tree::new() }
    }
}

/// A view counter after one more read: one step up, staying put only at the
/// top of the counter's range.
pub open spec fn bump_views(f: FiliteView) -> FiliteView {
    FiliteView {
        views: if f.views == usize::MAX {
            f.views
        } else {
            (f.views + 1) as usize
        },
        ..f
    }
}

/// What a read does to the entry namespace: a plain lookup, or one atomic
/// read-and-increment of the entry's view counter.
pub open spec fn spec_get(
    m: Map<Seq<char>, FiliteView>,
    id: Seq<char>,
    increment_view: bool,
) -> (Map<Seq<char>, FiliteView>, Option<FiliteView>) {
    if !m.contains_key(id) {
        (m, None)
    } else if increment_view {
        (m.insert(id, bump_views(m[id])), Some(bump_views(m[id])))
    } else {
        (m, Some(m[id]))
    }
}

/// What an insert-if-absent does to the entry namespace: an occupied
/// identifier is left untouched and the insert reports `false`.
pub open spec fn spec_insert(
    m: Map<Seq<char>, FiliteView>,
    id: Seq<char>,
    f: FiliteView,
) -> (Map<Seq<char>, FiliteView>, bool) {
    if m.contains_key(id) {
        (m, false)
    } else {
        (m.insert(id, f), true)
    }
}

/// Whether `requester` may delete the entry `f`: admins may delete anything,
/// others only what they own.
pub open spec fn spec_authorized(f: FiliteView, requester: UserView) -> bool {
    requester.admin || f.owner == requester.id
}

/// What an ownership-checked delete does to the entry namespace. A missing
/// entry and a denied delete are the same empty outcome, and in neither case
/// does the namespace change.
pub open spec fn spec_delete(
    m: Map<Seq<char>, FiliteView>,
    id: Seq<char>,
    requester: UserView,
) -> (Map<Seq<char>, FiliteView>, Option<FiliteView>) {
    if m.contains_key(id) && spec_authorized(m[id], requester) {
        (m.remove(id), Some(m[id]))
    } else {
        (m, None)
    }
}

/// Retrieves an entry. With `increment_view` the read is one atomic
/// read-modify-write of the stored record, so no concurrent read loses its
/// increment; without it, a plain point read. A missing identifier yields
/// `None`, never an error.
pub fn get(id: &str, increment_view: bool, db: &mut Store) -> (r: Option<Filite>)
    requires
        old(db).wf(),
    ensures
        final(db).wf(),
        final(db).users() == old(db).users(),
        final(db).entries() == spec_get(old(db).entries(), id@, increment_view).0,
        match r {
            Some(f) => spec_get(old(db).entries(), id@, increment_view).1 == Some(f@),
            None => spec_get(old(db).entries(), id@, increment_view).1 is None,
        },
{
    if increment_view {
        match db.entries.remove(id) {
            Some(mut f) => {
                f.views = if f.views == usize::MAX {
                    f.views
                } else {
                    f.views + 1
                };
                let out = f.duplicate();
                let inserted = db.entries.insert_new(id, f);
                proof {
                    assert(inserted);
                    assert(db.entries@ =~= old(db).entries().insert(
                        id@,
                        bump_views(old(db).entries()[id@]),
                    ));
                }
                Some(out)
            }
            None => None,
        }
    } else {
        match db.entries.get(id) {
            Some(f) => Some(f.duplicate()),
            None => None,
        }
    }
}

/// Atomically tests that `id` is absent and inserts `filite` only then:
/// `false` reports an occupied identifier, which is never overwritten. One
/// indivisible operation, not an exists-check followed by a write.
pub fn insert(id: &str, filite: Filite, db: &mut Store) -> (r: bool)
    requires
        old(db).wf(),
    ensures
        final(db).wf(),
        final(db).users() == old(db).users(),
        final(db).entries() == spec_insert(old(db).entries(), id@, filite@).0,
        r == spec_insert(old(db).entries(), id@, filite@).1,
{
    db.entries.insert_new(id, filite)
}

/// Whether the entry namespace currently holds `id`.
pub fn contains_id(id: &str, db: &Store) -> (r: bool)
    requires
        db.wf(),
    ensures
        r == db.entries().contains_key(id@),
{
    db.entries.contains_key(id)
}

/// Relies on chrono's `Utc::now`: the current time as a UNIX timestamp in
/// seconds. The clock promises nothing about the value it reports.
#[verifier::external_body]
fn now_timestamp() -> i64 {
    chrono::Utc::now().timestamp()
}

/// Is `c` one of the sixty-two ASCII alphanumeric characters?
pub open spec fn is_alphanumeric_ascii(c: char) -> bool {
    ||| 48 <= c as u32 && c as u32 <= 57
    ||| 65 <= c as u32 && c as u32 <= 90
    ||| 97 <= c as u32 && c as u32 <= 122
}

/// Relies on rand's `Alphanumeric` distribution: every sampled character is
/// drawn from `A-Z`, `a-z`, `0-9`, so the collected string holds exactly
/// `length` ASCII alphanumeric characters. Which characters come back is up
/// to the generator, and nothing more is promised.
#[verifier::external_body]
fn random_alphanumeric(length: usize) -> (r: String)
    ensures
        r@.len() == length,
        forall|i: int| 0 <= i < r@.len() ==> is_alphanumeric_ascii(r@[i]),
{
    rand::thread_rng().sample_iter(rand::distributions::Alphanumeric).take(length).collect()
}

/// Creates an entry with the given owner and content, the clock's current
/// time as its creation stamp, and no views yet. Shares `insert`'s
/// absence-check semantics: an occupied identifier stays as it is and the
/// call reports it by returning `None`.
pub fn insert_file(id: &str, owner: String, data: Vec<u8>, mime: String, db: &mut Store) -> (r:
    Option<Filite>)
    requires
        old(db).wf(),
    ensures
        final(db).wf(),
        final(db).users() == old(db).users(),
        r is Some <==> !old(db).entries().contains_key(id@),
        r is None ==> final(db).entries() == old(db).entries(),
        r matches Some(f) ==> {
            &&& f@.owner == owner@
            &&& f@.inner == (FiliteInnerView::File { data: data@, mime: mime@ })
            &&& f@.views == 0
            &&& final(db).entries() == old(db).entries().insert(id@, f@)
        },
{
    insert_filite(id, owner, FiliteInner::File { data, mime }, db)
}

/// Creates a redirect entry; see `insert_file` for the shared semantics.
pub fn insert_link(id: &str, owner: String, location: String, db: &mut Store) -> (r: Option<
    Filite,
>)
    requires
        old(db).wf(),
    ensures
        final(db).wf(),
        final(db).users() == old(db).users(),
        r is Some <==> !old(db).entries().contains_key(id@),
        r is None ==> final(db).entries() == old(db).entries(),
        r matches Some(f) ==> {
            &&& f@.owner == owner@
            &&& f@.inner == (FiliteInnerView::Link { location: location@ })
            &&& f@.views == 0
            &&& final(db).entries() == old(db).entries().insert(id@, f@)
        },
{
    insert_filite(id, owner, FiliteInner::Link { location }, db)
}

/// Creates a text entry; see `insert_file` for the shared semantics.
pub fn insert_text(id: &str, owner: String, data: String, db: &mut Store) -> (r: Option<Filite>)
    requires
        old(db).wf(),
    ensures
        final(db).wf(),
        final(db).users() == old(db).users(),
        r is Some <==> !old(db).entries().contains_key(id@),
        r is None ==> final(db).entries() == old(db).entries(),
        r matches Some(f) ==> {
            &&& f@.owner == owner@
            &&& f@.inner == (FiliteInnerView::Text { data: data@ })
            &&& f@.views == 0
            &&& final(db).entries() == old(db).entries().insert(id@, f@)
        },
{
    insert_filite(id, owner, FiliteInner::Text { data }, db)
}

/// The shared constructor behind the three variant-specific inserts.
fn insert_filite(id: &str, owner: String, inner: FiliteInner, db: &mut Store) -> (r: Option<
    Filite,
>)
    requires
        old(db).wf(),
    ensures
        final(db).wf(),
        final(db).users() == old(db).users(),
        r is Some <==> !old(db).entries().contains_key(id@),
        r is None ==> final(db).entries() == old(db).entries(),
        r matches Some(f) ==> {
            &&& f@.owner == owner@
            &&& f@.inner == inner@
            &&& f@.views == 0
            &&& final(db).entries() == old(db).entries().insert(id@, f@)
        },
{
    let filite = Filite { owner, creation: now_timestamp(), inner, views: 0 };
    let out = filite.duplicate();
    if insert(id, filite, db) {
        Some(out)
    } else {
        None
    }
}

/// Reads the entry under `id` and removes it only when `user` is an admin or
/// the entry's owner. An absent entry and a denied delete both come back as
/// `None`: an unauthorized delete never proceeds with removal.
pub fn delete_filite(id: &str, user: &User, db: &mut Store) -> (r: Option<Filite>)
    requires
        old(db).wf(),
    ensures
        final(db).wf(),
        final(db).users() == old(db).users(),
        final(db).entries() == spec_delete(old(db).entries(), id@, user@).0,
        match r {
            Some(f) => spec_delete(old(db).entries(), id@, user@).1 == Some(f@),
            None => spec_delete(old(db).entries(), id@, user@).1 is None,
        },
{
    let authorized = match db.entries.get(id) {
        Some(f) => user.admin || f.owner == user.id,
        None => false,
    };
    if authorized {
        db.entries.remove(id)
    } else {
        None
    }
}

/// Draws uniformly random alphanumeric identifiers of the given length until
/// one is free, and returns that one: the returned identifier is unused in
/// the entry namespace at the moment of allocation. The existence check only
/// trims retries; the insert-if-absent in `insert` is what makes a later
/// write race-free. Collisions are vanishingly rare at reasonable lengths,
/// but as a defensive bound the allocation gives up with `None` once the
/// store's occupancy makes them systemic.
pub fn random_id(length: usize, db: &Store) -> (r: Option<String>)
    requires
        db.wf(),
    ensures
        r matches Some(id) ==> {
            &&& id@.len() == length
            &&& forall|i: int| 0 <= i < id@.len() ==> is_alphanumeric_ascii(id@[i])
            &&& !db.entries().contains_key(id@)
        },
        (forall|k: Seq<char>| db.entries().contains_key(k) ==> k.len() != length) ==> r is Some,
{
    let mut attempts: usize = 0;
    while attempts < 100
        invariant
            db.wf(),
            attempts > 0 ==> (exists|k: Seq<char>|
                db.entries().contains_key(k) && k.len() == length),
        decreases 100 - attempts,
    {
        let id = random_alphanumeric(length);
        if !db.entries.contains_key(id.as_str()) {
            return Some(id);
        }
        proof {
            assert(db.entries().contains_key(id@) && id@.len() == length);
        }
        attempts += 1;
    }
    None
}

/// Looks up a user record by its identifier.
pub fn user(id: &str, db: &Store) -> (r: Option<User>)
    requires
        db.wf(),
    ensures
        match r {
            Some(u) => db.users().contains_key(id@) && u@ == db.users()[id@] && u@.id == id@,
            None => !db.users().contains_key(id@),
        },
{
    match db.users.get(id) {
        Some(u) => Some(u.duplicate()),
        None => None,
    }
}

/// Provisions a user: hashes the password through the credential hasher,
/// then inserts the record only when the username is absent, reported by
/// `Ok(None)` otherwise. An occupied username is never overwritten, and no
/// hashing work is spent on it. A failure of the hasher is fatal to the
/// operation and leaves the store unchanged.
pub fn insert_user(id: &str, password: &str, admin: bool, db: &mut Store, config: &Config) -> (r:
    Result<Option<User>, crate::auth::HashError>)
    requires
        old(db).wf(),
    ensures
        final(db).wf(),
        final(db).entries() == old(db).entries(),
        old(db).users().contains_key(id@) ==> (r matches Ok(o) && o is None),
        r matches Ok(o) && o is None ==> old(db).users().contains_key(id@),
        !(r matches Ok(o) && o is Some) ==> final(db).users() == old(db).users(),
        r matches Ok(o) ==> o matches Some(u) ==> {
            &&& !old(db).users().contains_key(id@)
            &&& u@.id == id@
            &&& u@.admin == admin
            &&& crate::auth::argon_wf(u@.password_hash)
            &&& crate::auth::argon_verifies(
                u@.password_hash,
                vstd::utf8::encode_utf8(password@),
                crate::auth::spec_secret(config.password),
            )
            &&& final(db).users() == old(db).users().insert(id@, u@)
        },
        !old(db).users().contains_key(id@) && crate::auth::spec_params_valid(config.password)
            && vstd::utf8::encode_utf8(password@).len() <= 0xFFFFFFFF ==> (r matches Ok(o)
            && o is Some),
        !old(db).users().contains_key(id@) && (crate::auth::spec_params_invalid(config.password)
            || vstd::utf8::encode_utf8(password@).len() > 0xFFFFFFFF) ==> r is Err,
{
    if db.users.contains_key(id) {
        return Ok(None);
    }
    let password_hash = match crate::auth::hash(password.as_bytes(), &config.password) {
        Ok(h) => h,
        Err(e) => {
            return Err(e);
        }
    };
    let user = User { id: id.to_owned(), admin, password_hash };
    let out = user.duplicate();
    let inserted = db.users.insert_new(id, user);
    proof {
        assert(inserted);
    }
    Ok(Some(out))
}

/// Removes a user record unconditionally and returns it: an operator-level
/// action with no ownership check, unlike entry deletion.
pub fn delete_user(id: &str, db: &mut Store) -> (r: Option<User>)
    requires
        old(db).wf(),
    ensures
        final(db).wf(),
        final(db).entries() == old(db).entries(),
        match r {
            Some(u) => old(db).users().contains_key(id@) && u@ == old(db).users()[id@]
                && final(db).users() == old(db).users().remove(id@),
            None => !old(db).users().contains_key(id@) && final(db).users() == old(db).users(),
        },
{
    db.users.remove(id)
}

/// Inserting under a fresh identifier succeeds, and inserting under it again
/// fails and leaves the stored entry exactly as the first insert wrote it.
pub proof fn lemma_insert_then_insert(
    m: Map<Seq<char>, FiliteView>,
    id: Seq<char>,
    e: FiliteView,
    e2: FiliteView,
)
    requires
        !m.contains_key(id),
    ensures
        spec_insert(m, id, e).1 == true,
        spec_insert(spec_insert(m, id, e).0, id, e2).1 == false,
        spec_insert(spec_insert(m, id, e).0, id, e2).0 == m.insert(id, e),
        spec_insert(spec_insert(m, id, e).0, id, e2).0[id] == e,
{
}

/// The entry namespace after `n` reads of `id` with the view-increment side
/// effect. Each such read holds the store exclusively for its whole
/// read-modify-write, so any interleaving of `n` concurrent reads acts as
/// some sequence of `n` of these steps.
pub open spec fn spec_reads(m: Map<Seq<char>, FiliteView>, id: Seq<char>, n: nat) -> Map<
    Seq<char>,
    FiliteView,
>
    decreases n,
{
    if n == 0 {
        m
    } else {
        spec_get(spec_reads(m, id, (n - 1) as nat), id, true).0
    }
}

/// No lost updates: `n` view-incrementing reads of a present entry raise its
/// view counter by exactly `n` (staying put only at the top of the
/// counter's range, where the increment saturates), and change nothing
/// else about the namespace.
pub proof fn lemma_reads_accumulate_views(m: Map<Seq<char>, FiliteView>, id: Seq<char>, n: nat)
    requires
        m.contains_key(id),
    ensures
        spec_reads(m, id, n).contains_key(id),
        m[id].views + n <= usize::MAX ==> spec_reads(m, id, n)[id].views == m[id].views + n,
        spec_reads(m, id, n)[id] == (FiliteView {
            views: if m[id].views + n <= usize::MAX {
                (m[id].views + n) as usize
            } else {
                usize::MAX
            },
            ..m[id]
        }),
        spec_reads(m, id, n).dom() == m.dom(),
        forall|k: Seq<char>| k != id && m.contains_key(k) ==> spec_reads(m, id, n)[k] == m[k],
    decreases n,
{
    if n > 0 {
        lemma_reads_accumulate_views(m, id, (n - 1) as nat);
        assert(spec_reads(m, id, n).dom() =~= m.dom());
    } else {
        assert(spec_reads(m, id, n)[id] =~= m[id]);
    }
}

/// Deletion succeeds exactly for an admin or the entry's owner; any other
/// requester leaves the namespace unchanged, the entry still retrievable.
pub proof fn lemma_delete_requires_authorization(
    m: Map<Seq<char>, FiliteView>,
    id: Seq<char>,
    requester: UserView,
)
    ensures
        spec_delete(m, id, requester).1 is Some <==> (m.contains_key(id) && (requester.admin
            || m[id].owner == requester.id)),
        !(m.contains_key(id) && spec_authorized(m[id], requester)) ==> spec_delete(
            m,
            id,
            requester,
        ).0 == m,
        m.contains_key(id) && !spec_authorized(m[id], requester) ==> spec_get(
            spec_delete(m, id, requester).0,
            id,
            false,
        ).1 == Some(m[id]),
        spec_delete(m, id, requester).1 matches Some(f) ==> f == m[id] && spec_delete(
            m,
            id,
            requester,
        ).0 == m.remove(id),
{
}

} // verus!
