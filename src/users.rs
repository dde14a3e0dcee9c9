//! Local users: the records a verified identity resolves to, and the
//! repository capability that stores them.
use vstd::prelude::*;

verus! {

pub struct CreateUserDto {
    pub username: String,
    pub email: Option<String>,
    pub first_name: String,
    pub last_name: String,
    pub password: Option<String>,
    pub telegram_id: i64,
}

pub struct User {
    pub id: i64,
    pub first_name: String,
    pub last_name: String,
    pub username: String,
    pub photo_url: Option<String>,
    pub email: Option<String>,
    pub telegram_id: i64,
    pub password: Option<String>,
}

/// A new user as the sign-in flow describes it.
pub struct CreateUserRequest {
    pub telegram_id: i64,
    pub username: Option<String>,
    pub first_name: String,
    pub last_name: Option<String>,
}

/// Storage of local users.
pub trait IUserRepository {
    /// The local id stored for provider id `telegram_id`, if any.
    spec fn lookup(&self, telegram_id: i64) -> Option<i64>;

    /// What storing `user` answers in the current state.
    spec fn create_outcome(&self, user: CreateUserDto) -> Result<i64, String>;

    /// The local id stored for provider id `telegram_id`, if any.
    fn find_user(&self, telegram_id: i64) -> (r: Option<i64>)
        ensures
            r == self.lookup(telegram_id),
    ;

    /// Stores a user made from `user`; on success returns its local id, which
    /// is then the one stored for its provider id.
    fn create_user(&mut self, user: &CreateUserDto) -> (r: Result<i64, String>)
        ensures
            r == old(self).create_outcome(*user),
            r is Ok ==> final(self).lookup(user.telegram_id) == Some(r->Ok_0),
    ;
}

/// The id of the last user in `users` with provider id `telegram_id`.
pub open spec fn last_id_for(users: Seq<User>, telegram_id: i64) -> Option<i64>
    decreases users.len(),
{
    if users.len() == 0 {
        None
    } else if users.last().telegram_id == telegram_id {
        Some(users.last().id)
    } else {
        last_id_for(users.drop_last(), telegram_id)
    }
}

fn clone_text(v: &Option<String>) -> (r: Option<String>)
    ensures
        r == *v,
{
    match v {
        Some(t) => Some(t.clone()),
        None => None,
    }
}

/// A repository that keeps users in memory, all under local id 1; the user
/// stored last for a provider id is the one found for it.
pub struct MockUserRepository {
    pub users: Vec<User>,
}

impl MockUserRepository {
    pub fn new() -> (r: Self)
        ensures
            r.users@.len() == 0,
    {
        MockUserRepository { users: Vec::new() }
    }
}

impl IUserRepository for MockUserRepository {
    open spec fn lookup(&self, telegram_id: i64) -> Option<i64> {
        last_id_for(self.users@, telegram_id)
    }

    open spec fn create_outcome(&self, user: CreateUserDto) -> Result<i64, String> {
        Ok(1)
    }

    fn find_user(&self, telegram_id: i64) -> (r: Option<i64>) {
        let mut i: usize = self.users.len();
        assert(self.users@.take(i as int) =~= self.users@);
        while i > 0
            invariant
                i <= self.users@.len(),
                last_id_for(self.users@, telegram_id) == last_id_for(self.users@.take(i as int), telegram_id),
            decreases i,
        {
            assert(self.users@.take(i as int).drop_last() =~= self.users@.take(i - 1));
            if self.users[i - 1].telegram_id == telegram_id {
                return Some(self.users[i - 1].id);
            }
            i -= 1;
        }
        None
    }

    fn create_user(&mut self, dto: &CreateUserDto) -> (r: Result<i64, String>)
        ensures
            r == Ok::<i64, String>(1),
            final(self).users@.len() == old(self).users@.len() + 1,
            final(self).users@.drop_last() == old(self).users@,
            final(self).users@.last() == (User {
                id: 1,
                username: dto.username,
                email: dto.email,
                first_name: dto.first_name,
                last_name: dto.last_name,
                password: dto.password,
                telegram_id: dto.telegram_id,
                photo_url: None,
            }),
    {
        let user = User {
            id: 1,
            username: dto.username.clone(),
            email: clone_text(&dto.email),
            first_name: dto.first_name.clone(),
            last_name: dto.last_name.clone(),
            password: clone_text(&dto.password),
            telegram_id: dto.telegram_id,
            photo_url: None,
        };
        let ghost before = self.users@;
        self.users.push(user);
        assert(self.users@.drop_last() =~= before);
        Ok(1)
    }
}

/// Sign-in use case over a user repository.
pub struct AuthService<R: IUserRepository> {
    pub repository: R,
}

impl<R: IUserRepository> AuthService<R> {
    pub fn new(repository: R) -> (r: Self)
        ensures
            r.repository == repository,
    {
        AuthService { repository }
    }

    /// Stores the user of a verified sign-in and returns what the repository answered.
    pub fn login_via_telegram(&mut self, dto: &CreateUserDto) -> (r: Result<i64, String>)
        ensures
            r == old(self).repository.create_outcome(*dto),
            r is Ok ==> final(self).repository.lookup(dto.telegram_id) == Some(r->Ok_0),
    {
        self.repository.create_user(dto)
    }
}

} // verus!
