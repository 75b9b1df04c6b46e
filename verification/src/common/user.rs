use super::error::CommonError;
use vstd::prelude::*;
use vstd::std_specs::cmp::PartialEqSpecImpl;
use vstd::std_specs::convert::FromSpecImpl;
use vstd::string::StringExecFns;

verus! {

/// Unique identity of a connected user: a case-sensitive string compared by value.
#[derive(Debug, Hash)]
pub struct UserName {
    user_name: String,
}

impl View for UserName {
    type V = Seq<char>;

    closed spec fn view(&self) -> Seq<char> {
        self.user_name@
    }
}

impl DeepView for UserName {
    type V = Seq<char>;

    open spec fn deep_view(&self) -> Seq<char> {
        self@
    }
}

impl UserName {
    pub fn new(username: &str) -> (name: Self)
        ensures
            name@ == username@,
    {
        Self { user_name: String::from_str(username) }
    }

    pub fn user_name(&self) -> (text: &str)
        ensures
            text@ == self@,
    {
        self.user_name.as_str()
    }
}

impl Clone for UserName {
    fn clone(&self) -> (copy: Self)
        ensures
            copy@ == self@,
    {
        Self { user_name: self.user_name.clone() }
    }
}

impl PartialEq for UserName {
    fn eq(&self, other: &Self) -> (equal: bool) {
        self.user_name == other.user_name
    }
}

impl Eq for UserName {}

impl PartialEqSpecImpl for UserName {
    open spec fn obeys_eq_spec() -> bool {
        true
    }

    open spec fn eq_spec(&self, other: &Self) -> bool {
        self@ == other@
    }
}

impl From<String> for UserName {
    fn from(username: String) -> (name: Self)
        ensures
            name@ == username@,
    {
        Self { user_name: username }
    }
}

impl FromSpecImpl<String> for UserName {
    open spec fn obeys_from_spec() -> bool {
        true
    }

    closed spec fn from_spec(username: String) -> Self {
        UserName { user_name: username }
    }
}

/// Copies a list of names, element by element.
pub fn clone_names(names: &Vec<UserName>) -> (copy: Vec<UserName>)
    ensures
        copy.deep_view() == names.deep_view(),
{
    let mut copy: Vec<UserName> = Vec::new();
    let mut i: usize = 0;
    while i < names.len()
        invariant
            i <= names.len(),
            copy.len() == i,
            forall|j: int| 0 <= j < i ==> copy[j]@ == names[j]@,
        decreases names.len() - i,
    {
        copy.push(names[i].clone());
        i += 1;
    }
    assert(copy.deep_view() =~= names.deep_view());
    copy
}

/// Handle of one private mailbox. The registry hands out a fresh handle for
/// every session it admits; whoever owns the channels maps the handle to the
/// sending half of the session's mailbox.
#[derive(Debug, Clone, Copy, PartialEq, Eq, Hash, Structural)]
pub struct Mailbox {
    pub id: u64,
}

/// A session record: the user's name and the handle of its private mailbox.
/// Two records are the same identity when their names are equal, whatever
/// their mailboxes.
#[derive(Debug)]
pub struct User {
    user_name: UserName,
    user_tx: Mailbox,
}

/// Mathematical value of a session record.
pub ghost struct UserView {
    pub name: Seq<char>,
    pub mailbox: Mailbox,
}

impl View for User {
    type V = UserView;

    closed spec fn view(&self) -> UserView {
        UserView { name: self.user_name@, mailbox: self.user_tx }
    }
}

impl DeepView for User {
    type V = UserView;

    open spec fn deep_view(&self) -> UserView {
        self@
    }
}

impl Clone for User {
    fn clone(&self) -> (copy: Self)
        ensures
            copy@ == self@,
    {
        Self { user_name: self.user_name.clone(), user_tx: self.user_tx }
    }
}

impl PartialEq for User {
    fn eq(&self, other: &Self) -> (equal: bool) {
        self.user_name == other.user_name
    }
}

impl Eq for User {}

impl PartialEqSpecImpl for User {
    open spec fn obeys_eq_spec() -> bool {
        true
    }

    open spec fn eq_spec(&self, other: &Self) -> bool {
        self@.name == other@.name
    }
}

impl User {
    pub fn new(user_name: UserName, user_tx: Mailbox) -> (user: Self)
        ensures
            user@ == (UserView { name: user_name@, mailbox: user_tx }),
    {
        Self { user_name, user_tx }
    }

    pub fn user_name(&self) -> (name: &UserName)
        ensures
            name@ == self@.name,
    {
        &self.user_name
    }

    pub fn user_tx(&self) -> (mailbox: Mailbox)
        ensures
            mailbox == self@.mailbox,
    {
        self.user_tx
    }
}

/// Whether some record of `users` carries `name`.
pub open spec fn has_name(users: Seq<UserView>, name: Seq<char>) -> bool {
    exists|i: int| 0 <= i < users.len() && #[trigger] users[i].name == name
}

/// Position of the first record of `users` that carries `name`; `users.len()`
/// where there is none.
pub open spec fn position_of(users: Seq<UserView>, name: Seq<char>) -> int
    decreases users.len(),
{
    if users.len() == 0 {
        0
    } else if users[0].name == name {
        0
    } else {
        1 + position_of(users.drop_first(), name)
    }
}

/// The names of `users`, in order.
pub open spec fn names_of(users: Seq<UserView>) -> Seq<Seq<char>> {
    Seq::new(users.len(), |i: int| users[i].name)
}

/// No two records of `users` carry the same name.
pub open spec fn distinct_names(users: Seq<UserView>) -> bool {
    forall|i: int, j: int|
        0 <= i < users.len() && 0 <= j < users.len() && i != j ==> #[trigger] users[i].name
            != #[trigger] users[j].name
}

/// No two records of `users` carry the same mailbox.
pub open spec fn distinct_mailboxes(users: Seq<UserView>) -> bool {
    forall|i: int, j: int|
        0 <= i < users.len() && 0 <= j < users.len() && i != j ==> #[trigger] users[i].mailbox
            != #[trigger] users[j].mailbox
}

/// `position_of` finds a record exactly when one carries the name, and then
/// the first such.
pub proof fn lemma_position_of(users: Seq<UserView>, name: Seq<char>)
    ensures
        0 <= position_of(users, name) <= users.len(),
        has_name(users, name) <==> position_of(users, name) < users.len(),
        position_of(users, name) < users.len() ==> users[position_of(users, name)].name == name,
        forall|j: int| 0 <= j < position_of(users, name) ==> (#[trigger] users[j]).name != name,
    decreases users.len(),
{
    if users.len() == 0 {
    } else if users[0].name == name {
    } else {
        let rest = users.drop_first();
        lemma_position_of(rest, name);
        let p = position_of(rest, name);
        assert forall|j: int| 0 <= j < 1 + p implies (#[trigger] users[j]).name != name by {
            if j > 0 {
                assert(users[j] == rest[j - 1]);
            }
        }
        if p < rest.len() {
            assert(users[p + 1] == rest[p]);
        }
        if has_name(users, name) {
            let i = choose|i: int| 0 <= i < users.len() && #[trigger] users[i].name == name;
            assert(rest[i - 1] == users[i]);
            assert(has_name(rest, name));
        }
    }
}

/// Position of the first record of `users` that carries `user_name`.
pub fn find_user(users: &Vec<User>, user_name: &UserName) -> (found: Option<usize>)
    ensures
        match found {
            Some(i) => i == position_of(users.deep_view(), user_name@) && i < users.len(),
            None => position_of(users.deep_view(), user_name@) == users.len(),
        },
        found.is_some() <==> has_name(users.deep_view(), user_name@),
{
    let ghost records = users.deep_view();
    let mut i: usize = 0;
    assert(records.skip(0) =~= records);
    while i < users.len()
        invariant
            i <= users.len(),
            records == users.deep_view(),
            forall|j: int| 0 <= j < i ==> (#[trigger] records[j]).name != user_name@,
            position_of(records, user_name@) == i + position_of(
                records.skip(i as int),
                user_name@,
            ),
        decreases users.len() - i,
    {
        proof {
            let rest = records.skip(i as int);
            assert(rest[0] == records[i as int]);
            assert(rest.drop_first() =~= records.skip(i + 1));
        }
        if users[i].user_name == *user_name {
            proof {
                lemma_position_of(records, user_name@);
            }
            return Some(i);
        }
        i += 1;
    }
    proof {
        assert(records.skip(i as int).len() == 0);
        lemma_position_of(records, user_name@);
    }
    None
}

/// The names of `users`, in order.
pub fn names_of_users(users: &Vec<User>) -> (names: Vec<UserName>)
    ensures
        names.deep_view() == names_of(users.deep_view()),
{
    let mut names: Vec<UserName> = Vec::new();
    let mut i: usize = 0;
    while i < users.len()
        invariant
            i <= users.len(),
            names.len() == i,
            forall|j: int| 0 <= j < i ==> names[j]@ == users[j]@.name,
        decreases users.len() - i,
    {
        names.push(users[i].user_name.clone());
        i += 1;
    }
    assert(names.deep_view() =~= names_of(users.deep_view()));
    names
}

/// Taking out the record of a name leaves the names distinct, and the name
/// is then gone.
pub proof fn lemma_remove_keeps_distinct(users: Seq<UserView>, name: Seq<char>)
    requires
        distinct_names(users),
        has_name(users, name),
    ensures
        distinct_names(users.remove(position_of(users, name))),
        !has_name(users.remove(position_of(users, name)), name),
{
    lemma_position_of(users, name);
    let p = position_of(users, name);
    let rest = users.remove(p);
    assert forall|i: int, j: int| 0 <= i < rest.len() && 0 <= j < rest.len() && i != j implies (
    #[trigger] rest[i]).name != (#[trigger] rest[j]).name by {
        let a = if i < p { i } else { i + 1 };
        let b = if j < p { j } else { j + 1 };
        assert(rest[i] == users[a]);
        assert(rest[j] == users[b]);
    }
    if has_name(rest, name) {
        let i = choose|i: int| 0 <= i < rest.len() && #[trigger] rest[i].name == name;
        let a = if i < p { i } else { i + 1 };
        assert(rest[i] == users[a]);
        assert(users[a].name == users[p].name);
    }
}

/// The set of connected users: one session record per name, in the order in
/// which the sessions registered, and the handle that the next session gets.
pub struct UserManager {
    users: Vec<User>,
    next_mailbox: u64,
}

/// Mathematical value of the set of connected users.
pub ghost struct UserManagerView {
    pub users: Seq<UserView>,
    pub next_mailbox: nat,
}

impl UserManagerView {
    /// No name and no mailbox occurs twice, and every mailbox handle in use
    /// was handed out before `next_mailbox`, so that the next session's
    /// handle is fresh.
    pub open spec fn wf(self) -> bool {
        &&& distinct_names(self.users)
        &&& distinct_mailboxes(self.users)
        &&& forall|i: int|
            0 <= i < self.users.len() ==> (#[trigger] self.users[i]).mailbox.id
                < self.next_mailbox
        &&& self.next_mailbox <= u64::MAX
    }

    pub open spec fn has(self, name: Seq<char>) -> bool {
        has_name(self.users, name)
    }

    /// The record registered under `name`.
    pub open spec fn user(self, name: Seq<char>) -> UserView
        recommends
            self.has(name),
    {
        self.users[position_of(self.users, name)]
    }

    /// The handle that the next admitted session gets.
    pub open spec fn fresh_mailbox(self) -> Mailbox {
        Mailbox { id: self.next_mailbox as u64 }
    }

    /// The registry after admitting `name`.
    pub open spec fn with_user(self, name: Seq<char>) -> UserManagerView {
        UserManagerView {
            users: self.users.push(UserView { name, mailbox: self.fresh_mailbox() }),
            next_mailbox: self.next_mailbox + 1,
        }
    }

    /// The registry after `name` has left.
    pub open spec fn without_user(self, name: Seq<char>) -> UserManagerView {
        if self.has(name) {
            UserManagerView {
                users: self.users.remove(position_of(self.users, name)),
                next_mailbox: self.next_mailbox,
            }
        } else {
            self
        }
    }
}

/// A registry that admits a new name with the fresh mailbox stays sound.
pub proof fn lemma_with_user_is_sound(state: UserManagerView, name: Seq<char>)
    requires
        state.wf(),
        !state.has(name),
        state.next_mailbox < u64::MAX,
    ensures
        state.with_user(name).wf(),
{
    let after = state.with_user(name).users;
    assert forall|i: int, j: int| 0 <= i < after.len() && 0 <= j < after.len() && i != j implies (
    #[trigger] after[i]).name != (#[trigger] after[j]).name && after[i].mailbox
        != after[j].mailbox by {
        if i < state.users.len() {
            assert(after[i] == state.users[i]);
        }
        if j < state.users.len() {
            assert(after[j] == state.users[j]);
        }
    }
    assert forall|i: int| 0 <= i < after.len() implies (#[trigger] after[i]).mailbox.id
        < state.next_mailbox + 1 by {
        if i < state.users.len() {
            assert(after[i] == state.users[i]);
        }
    }
}

/// A registry that a user leaves stays sound, and the name is free again.
pub proof fn lemma_without_user_is_sound(state: UserManagerView, name: Seq<char>)
    requires
        state.wf(),
    ensures
        state.without_user(name).wf(),
        !state.without_user(name).has(name),
{
    if state.has(name) {
        lemma_remove_keeps_distinct(state.users, name);
        lemma_position_of(state.users, name);
        let p = position_of(state.users, name);
        let after = state.users.remove(p);
        assert forall|i: int| 0 <= i < after.len() implies (#[trigger] after[i]).mailbox.id
            < state.next_mailbox by {
            let a = if i < p { i } else { i + 1 };
            assert(after[i] == state.users[a]);
        }
        assert forall|i: int, j: int|
            0 <= i < after.len() && 0 <= j < after.len() && i != j implies (
        #[trigger] after[i]).mailbox != (#[trigger] after[j]).mailbox by {
            let a = if i < p { i } else { i + 1 };
            let b = if j < p { j } else { j + 1 };
            assert(after[i] == state.users[a]);
            assert(after[j] == state.users[b]);
        }
    }
}

/// Two users of a sound registry do not share a mailbox.
pub proof fn lemma_mailboxes_are_private(state: UserManagerView, one: Seq<char>, other: Seq<char>)
    requires
        state.wf(),
        state.has(one),
        state.has(other),
        one != other,
    ensures
        state.user(one).mailbox != state.user(other).mailbox,
{
    lemma_position_of(state.users, one);
    lemma_position_of(state.users, other);
}

impl View for UserManager {
    type V = UserManagerView;

    closed spec fn view(&self) -> UserManagerView {
        UserManagerView { users: self.users.deep_view(), next_mailbox: self.next_mailbox as nat }
    }
}

impl Default for UserManager {
    fn default() -> (manager: Self)
        ensures
            manager@.users.len() == 0,
            manager@.next_mailbox == 0,
            manager@.wf(),
    {
        Self { users: Vec::new(), next_mailbox: 0 }
    }
}

impl UserManager {
    /// Position of the record registered under `user_name`.
    fn find(&self, user_name: &UserName) -> (found: Option<usize>)
        ensures
            match found {
                Some(i) => i == position_of(self@.users, user_name@) && i < self@.users.len(),
                None => position_of(self@.users, user_name@) == self@.users.len(),
            },
            found.is_some() <==> self@.has(user_name@),
    {
        find_user(&self.users, user_name)
    }

    /// Whether the next session can still get a fresh mailbox handle.
    pub fn has_free_mailbox(&self) -> (free: bool)
        ensures
            free == (self@.next_mailbox < u64::MAX),
    {
        self.next_mailbox < u64::MAX
    }

    /// Admits a session under `user_name` and gives it a fresh mailbox, unless
    /// the name is taken. A free name needs a mailbox handle that is still to
    /// be had; a name that is taken is refused whether one is left or not.
    pub fn add_new_user(&mut self, user_name: UserName) -> (added: Result<User, CommonError>)
        requires
            old(self)@.wf(),
            !old(self)@.has(user_name@) ==> old(self)@.next_mailbox < u64::MAX,
        ensures
            final(self)@.wf(),
            match added {
                Ok(user) => {
                    &&& !old(self)@.has(user_name@)
                    &&& user@ == (UserView { name: user_name@, mailbox: old(self)@.fresh_mailbox() })
                    &&& final(self)@ == old(self)@.with_user(user_name@)
                },
                Err(e) => {
                    &&& old(self)@.has(user_name@)
                    &&& e@ == super::error::CommonErrorView::UserExists(user_name@)
                    &&& final(self)@ == old(self)@
                },
            },
    {
        let user = User::new(user_name, Mailbox { id: self.next_mailbox });
        let copy = user.clone();
        match self.add_user(user) {
            Ok(()) => {
                self.next_mailbox = self.next_mailbox + 1;
                proof {
                    assert(final(self)@.users =~= old(self)@.with_user(user_name@).users);
                    lemma_with_user_is_sound(old(self)@, user_name@);
                }
                Ok(copy)
            },
            Err(e) => Err(e),
        }
    }

    /// Stores `user`, unless a record with its name is present.
    pub fn add_user(&mut self, user: User) -> (added: Result<(), CommonError>)
        requires
            distinct_names(old(self)@.users),
        ensures
            distinct_names(final(self)@.users),
            final(self)@.next_mailbox == old(self)@.next_mailbox,
            match added {
                Ok(()) => !old(self)@.has(user@.name) && final(self)@.users == old(self)@.users.push(
                    user@,
                ),
                Err(e) => {
                    &&& old(self)@.has(user@.name)
                    &&& e@ == super::error::CommonErrorView::UserExists(user@.name)
                    &&& final(self)@ == old(self)@
                },
            },
    {
        match self.find(user.user_name()) {
            Some(_) => Err(CommonError::UserExists(user.user_name().clone())),
            None => {
                self.users.push(user);
                proof {
                    assert(final(self)@.users =~= old(self)@.users.push(user@));
                }
                Ok(())
            },
        }
    }

    /// Takes the record of `user_name` out of the registry.
    pub fn remove_user(&mut self, user_name: &UserName) -> (removed: Result<User, CommonError>)
        ensures
            final(self)@ == old(self)@.without_user(user_name@),
            old(self)@.wf() ==> final(self)@.wf(),
            match removed {
                Ok(user) => old(self)@.has(user_name@) && user@ == old(self)@.user(user_name@),
                Err(e) => {
                    &&& !old(self)@.has(user_name@)
                    &&& e@ == super::error::CommonErrorView::UserNotExists(user_name@)
                },
            },
    {
        match self.find(user_name) {
            Some(i) => {
                let user = self.users.remove(i);
                proof {
                    assert(final(self)@.users =~= old(self)@.users.remove(i as int));
                    if old(self)@.wf() {
                        lemma_without_user_is_sound(old(self)@, user_name@);
                    }
                }
                Ok(user)
            },
            None => Err(CommonError::UserNotExists(user_name.clone())),
        }
    }

    /// The record registered under `user_name`.
    pub fn get_user(&self, user_name: &UserName) -> (found: Result<&User, CommonError>)
        ensures
            match found {
                Ok(user) => self@.has(user_name@) && user@ == self@.user(user_name@),
                Err(e) => {
                    &&& !self@.has(user_name@)
                    &&& e@ == super::error::CommonErrorView::UserNotExists(user_name@)
                },
            },
    {
        match self.find(user_name) {
            Some(i) => Ok(&self.users[i]),
            None => Err(CommonError::UserNotExists(user_name.clone())),
        }
    }

    /// The names of all connected users, in the order in which they registered.
    pub fn list_users(&self) -> (names: Vec<UserName>)
        ensures
            names.deep_view() == names_of(self@.users),
    {
        names_of_users(&self.users)
    }
}

} // verus!
