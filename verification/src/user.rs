//! The user entity family and its controller.
//!
//! A user's login and metadata are nested records, so user filters exercise
//! the nested-field flattening of the document builder. Password hashing is
//! an external collaborator's concern: the operations here take the salt
//! and the hashed password as plain values.

use vstd::prelude::*;

use crate::base::{create, delete, get, list, update, filter_shape, id_filter, DbBmc, Record};
use crate::ctx::Ctx;
use crate::error::Error;
use crate::oid::{hex_encode, is_oid_string, ObjectId};
use crate::store::{apply_update, first_match, matching, remove_first, ModelManager};
use crate::value::{
    bool_field, bool_field_ok, int_field, lookup, opt_view,
    read_bool_field, read_int_field, read_str_field, read_sub_field, str_field, str_field_ok,
    sub_field, sub_field_ok, translate_ids, Doc, DocV, ValV, Value,
};

verus! {

/// The shape of a calendar date.
pub struct DateV {
    pub year: i64,
    pub month: i64,
    pub day: i64,
}

/// A calendar date, kept as plain year, month and day numbers.
#[derive(Debug, Clone, Copy, PartialEq, Eq, Structural)]
pub struct Date {
    pub year: i64,
    pub month: i64,
    pub day: i64,
}

impl View for Date {
    type V = DateV;

    open spec fn view(&self) -> DateV {
        DateV { year: self.year, month: self.month, day: self.day }
    }
}

/// The shape of a user's login record.
pub struct QUserLoginV {
    pub username: Option<Seq<char>>,
    pub pw: Option<Seq<char>>,
    pub pwd_salt: Option<Seq<char>>,
}

/// A user's login record. The salt is kept in its hyphenated string form.
#[derive(Debug)]
pub struct QUserLogin {
    pub username: Option<String>,
    pub pw: Option<String>,
    pub pwd_salt: Option<String>,
}

impl View for QUserLogin {
    type V = QUserLoginV;

    open spec fn view(&self) -> QUserLoginV {
        QUserLoginV {
            username: opt_view(self.username),
            pw: opt_view(self.pw),
            pwd_salt: opt_view(self.pwd_salt),
        }
    }
}

/// The shape of a user's metadata record.
pub struct QUserMetaV {
    pub name: Option<Seq<char>>,
    pub surname: Option<Seq<char>>,
    pub birth: Option<DateV>,
    pub mail: Option<Seq<char>>,
}

/// A user's metadata record.
#[derive(Debug)]
pub struct QUserMeta {
    pub name: Option<String>,
    pub surname: Option<String>,
    pub birth: Option<Date>,
    pub mail: Option<String>,
}

impl View for QUserMeta {
    type V = QUserMetaV;

    open spec fn view(&self) -> QUserMetaV {
        QUserMetaV {
            name: opt_view(self.name),
            surname: opt_view(self.surname),
            birth: match self.birth {
                Some(d) => Some(d@),
                None => None,
            },
            mail: opt_view(self.mail),
        }
    }
}

/// The shape of a user record.
pub struct QUserV {
    pub id: Option<Seq<char>>,
    pub active: Option<bool>,
    pub login: Option<QUserLoginV>,
    pub metadata: Option<QUserMetaV>,
}

/// The user entity. The identifier is absent before creation and carries
/// the store-assigned identifier string after.
#[derive(Debug)]
pub struct QUser {
    pub id: Option<String>,
    pub active: Option<bool>,
    pub login: Option<QUserLogin>,
    pub metadata: Option<QUserMeta>,
}

impl View for QUser {
    type V = QUserV;

    open spec fn view(&self) -> QUserV {
        QUserV {
            id: opt_view(self.id),
            active: self.active,
            login: match &self.login {
                Some(l) => Some(l@),
                None => None,
            },
            metadata: match &self.metadata {
                Some(m) => Some(m@),
                None => None,
            },
        }
    }
}

/// The record supplied to create a user: a username and the password in
/// clear, to be hashed by the authentication collaborator.
#[derive(Debug)]
pub struct QUserForCreate {
    pub username: String,
    pub pwd_clear: String,
}

/// The shape of a user-creation record.
pub struct QUserForCreateV {
    pub username: Seq<char>,
    pub pwd_clear: Seq<char>,
}

impl View for QUserForCreate {
    type V = QUserForCreateV;

    open spec fn view(&self) -> QUserForCreateV {
        QUserForCreateV { username: self.username@, pwd_clear: self.pwd_clear@ }
    }
}

/// The credentials a login check needs.
#[derive(Debug)]
pub struct QUserForLogin {
    pub id: String,
    pub username: String,
    pub pwd: Option<String>,
    pub pwd_salt: String,
}

/// The identity a token validation needs.
#[derive(Debug)]
pub struct QUserForAuth {
    pub id: String,
    pub username: String,
    pub pwd_salt: String,
}

/// The document shape of a date: all three parts, always present.
pub open spec fn date_doc_of(v: DateV) -> DocV {
    Seq::<(Seq<char>, ValV)>::empty().push(("year"@, ValV::Int(v.year))).push(
        ("month"@, ValV::Int(v.month)),
    ).push(("day"@, ValV::Int(v.day)))
}

/// The date a fetched date document reads back to, if well-typed.
pub open spec fn date_of_doc(d: DocV) -> Option<DateV> {
    if int_field(lookup(d, "year"@)) is Some && int_field(lookup(d, "month"@)) is Some
        && int_field(lookup(d, "day"@)) is Some {
        Some(
            DateV {
                year: int_field(lookup(d, "year"@))->0,
                month: int_field(lookup(d, "month"@))->0,
                day: int_field(lookup(d, "day"@))->0,
            },
        )
    } else {
        None
    }
}

/// The document shape of a login record: absent fields omitted.
pub open spec fn login_doc_of(v: QUserLoginV) -> DocV {
    let d0 = Seq::<(Seq<char>, ValV)>::empty();
    let d1 = if v.username is Some {
        d0.push(("username"@, ValV::Str(v.username->0)))
    } else {
        d0
    };
    let d2 = if v.pw is Some {
        d1.push(("pw"@, ValV::Str(v.pw->0)))
    } else {
        d1
    };
    if v.pwd_salt is Some {
        d2.push(("pwd_salt"@, ValV::Str(v.pwd_salt->0)))
    } else {
        d2
    }
}

/// The login record a fetched document reads back to, if well-typed.
pub open spec fn login_of_doc(d: DocV) -> Option<QUserLoginV> {
    if str_field_ok(lookup(d, "username"@)) && str_field_ok(lookup(d, "pw"@)) && str_field_ok(
        lookup(d, "pwd_salt"@),
    ) {
        Some(
            QUserLoginV {
                username: str_field(lookup(d, "username"@)),
                pw: str_field(lookup(d, "pw"@)),
                pwd_salt: str_field(lookup(d, "pwd_salt"@)),
            },
        )
    } else {
        None
    }
}

/// The document shape of a metadata record: absent fields omitted.
pub open spec fn meta_doc_of(v: QUserMetaV) -> DocV {
    let d0 = Seq::<(Seq<char>, ValV)>::empty();
    let d1 = if v.name is Some {
        d0.push(("name"@, ValV::Str(v.name->0)))
    } else {
        d0
    };
    let d2 = if v.surname is Some {
        d1.push(("surname"@, ValV::Str(v.surname->0)))
    } else {
        d1
    };
    let d3 = if v.birth is Some {
        d2.push(("birth"@, ValV::Sub(date_doc_of(v.birth->0))))
    } else {
        d2
    };
    if v.mail is Some {
        d3.push(("mail"@, ValV::Str(v.mail->0)))
    } else {
        d3
    }
}

/// The metadata record a fetched document reads back to, if well-typed.
pub open spec fn meta_of_doc(d: DocV) -> Option<QUserMetaV> {
    if str_field_ok(lookup(d, "name"@)) && str_field_ok(lookup(d, "surname"@)) && str_field_ok(
        lookup(d, "mail"@),
    ) && sub_field_ok(lookup(d, "birth"@)) {
        match sub_field(lookup(d, "birth"@)) {
            None => Some(
                QUserMetaV {
                    name: str_field(lookup(d, "name"@)),
                    surname: str_field(lookup(d, "surname"@)),
                    birth: None,
                    mail: str_field(lookup(d, "mail"@)),
                },
            ),
            Some(bd) => match date_of_doc(bd) {
                Some(dt) => Some(
                    QUserMetaV {
                        name: str_field(lookup(d, "name"@)),
                        surname: str_field(lookup(d, "surname"@)),
                        birth: Some(dt),
                        mail: str_field(lookup(d, "mail"@)),
                    },
                ),
                None => None,
            },
        }
    } else {
        None
    }
}

impl Date {
    fn to_doc(&self) -> (r: Doc)
        ensures
            r@ == date_doc_of(self@),
    {
        let mut r = Doc::new();
        r.insert("year".to_owned(), Value::Int(self.year));
        r.insert("month".to_owned(), Value::Int(self.month));
        r.insert("day".to_owned(), Value::Int(self.day));
        proof {
            assert(r@ =~= date_doc_of(self@));
        }
        r
    }

    fn from_doc(d: &Doc) -> (r: Option<Date>)
        ensures
            match r {
                Some(x) => date_of_doc(d@) == Some(x@),
                None => date_of_doc(d@) is None,
            },
    {
        let year = match read_int_field(d, &"year".to_owned()) {
            Some(Some(n)) => n,
            _ => { return None; },
        };
        let month = match read_int_field(d, &"month".to_owned()) {
            Some(Some(n)) => n,
            _ => { return None; },
        };
        let day = match read_int_field(d, &"day".to_owned()) {
            Some(Some(n)) => n,
            _ => { return None; },
        };
        Some(Date { year, month, day })
    }
}

impl QUserLogin {
    fn to_doc(&self) -> (r: Doc)
        ensures
            r@ == login_doc_of(self@),
    {
        let mut r = Doc::new();
        if let Some(s) = &self.username {
            r.insert("username".to_owned(), Value::Str(s.clone()));
        }
        if let Some(s) = &self.pw {
            r.insert("pw".to_owned(), Value::Str(s.clone()));
        }
        if let Some(s) = &self.pwd_salt {
            r.insert("pwd_salt".to_owned(), Value::Str(s.clone()));
        }
        proof {
            assert(r@ =~= login_doc_of(self@));
        }
        r
    }

    fn from_doc(d: &Doc) -> (r: Option<QUserLogin>)
        ensures
            match r {
                Some(x) => login_of_doc(d@) == Some(x@),
                None => login_of_doc(d@) is None,
            },
    {
        let username = match read_str_field(d, &"username".to_owned()) {
            Some(o) => o,
            None => { return None; },
        };
        let pw = match read_str_field(d, &"pw".to_owned()) {
            Some(o) => o,
            None => { return None; },
        };
        let pwd_salt = match read_str_field(d, &"pwd_salt".to_owned()) {
            Some(o) => o,
            None => { return None; },
        };
        Some(QUserLogin { username, pw, pwd_salt })
    }
}

impl QUserMeta {
    fn to_doc(&self) -> (r: Doc)
        ensures
            r@ == meta_doc_of(self@),
    {
        let mut r = Doc::new();
        if let Some(s) = &self.name {
            r.insert("name".to_owned(), Value::Str(s.clone()));
        }
        if let Some(s) = &self.surname {
            r.insert("surname".to_owned(), Value::Str(s.clone()));
        }
        if let Some(b) = &self.birth {
            r.insert("birth".to_owned(), Value::Sub(b.to_doc()));
        }
        if let Some(s) = &self.mail {
            r.insert("mail".to_owned(), Value::Str(s.clone()));
        }
        proof {
            assert(r@ =~= meta_doc_of(self@));
        }
        r
    }

    fn from_doc(d: &Doc) -> (r: Option<QUserMeta>)
        ensures
            match r {
                Some(x) => meta_of_doc(d@) == Some(x@),
                None => meta_of_doc(d@) is None,
            },
    {
        let name = match read_str_field(d, &"name".to_owned()) {
            Some(o) => o,
            None => { return None; },
        };
        let surname = match read_str_field(d, &"surname".to_owned()) {
            Some(o) => o,
            None => { return None; },
        };
        let mail = match read_str_field(d, &"mail".to_owned()) {
            Some(o) => o,
            None => { return None; },
        };
        let birth = match read_sub_field(d, &"birth".to_owned()) {
            Some(None) => None,
            Some(Some(bd)) => match Date::from_doc(bd) {
                Some(dt) => Some(dt),
                None => { return None; },
            },
            None => { return None; },
        };
        Some(QUserMeta { name, surname, birth, mail })
    }
}

impl Record for QUser {
    open spec fn doc_of(v: QUserV) -> DocV {
        let d0 = Seq::<(Seq<char>, ValV)>::empty();
        let d1 = if v.id is Some {
            d0.push(("id"@, ValV::Str(v.id->0)))
        } else {
            d0
        };
        let d2 = if v.active is Some {
            d1.push(("active"@, ValV::Bool(v.active->0)))
        } else {
            d1
        };
        let d3 = if v.login is Some {
            d2.push(("login"@, ValV::Sub(login_doc_of(v.login->0))))
        } else {
            d2
        };
        if v.metadata is Some {
            d3.push(("metadata"@, ValV::Sub(meta_doc_of(v.metadata->0))))
        } else {
            d3
        }
    }

    open spec fn of_doc(d: DocV) -> Option<QUserV> {
        if str_field_ok(lookup(d, "id"@)) && bool_field_ok(lookup(d, "active"@)) && sub_field_ok(
            lookup(d, "login"@),
        ) && sub_field_ok(lookup(d, "metadata"@)) {
            let login = match sub_field(lookup(d, "login"@)) {
                None => Some(None::<QUserLoginV>),
                Some(ld) => match login_of_doc(ld) {
                    Some(l) => Some(Some(l)),
                    None => None,
                },
            };
            let metadata = match sub_field(lookup(d, "metadata"@)) {
                None => Some(None::<QUserMetaV>),
                Some(md) => match meta_of_doc(md) {
                    Some(m) => Some(Some(m)),
                    None => None,
                },
            };
            if login is Some && metadata is Some {
                Some(
                    QUserV {
                        id: str_field(lookup(d, "id"@)),
                        active: bool_field(lookup(d, "active"@)),
                        login: login->0,
                        metadata: metadata->0,
                    },
                )
            } else {
                None
            }
        } else {
            None
        }
    }

    fn to_doc(&self) -> (r: Doc) {
        let mut r = Doc::new();
        if let Some(s) = &self.id {
            r.insert("id".to_owned(), Value::Str(s.clone()));
        }
        if let Some(b) = &self.active {
            r.insert("active".to_owned(), Value::Bool(*b));
        }
        if let Some(l) = &self.login {
            r.insert("login".to_owned(), Value::Sub(l.to_doc()));
        }
        if let Some(m) = &self.metadata {
            r.insert("metadata".to_owned(), Value::Sub(m.to_doc()));
        }
        proof {
            assert(r@ =~= Self::doc_of(self@));
        }
        r
    }

    fn from_doc(d: &Doc) -> (r: Option<Self>) {
        let id = match read_str_field(d, &"id".to_owned()) {
            Some(o) => o,
            None => { return None; },
        };
        let active = match read_bool_field(d, &"active".to_owned()) {
            Some(o) => o,
            None => { return None; },
        };
        let login = match read_sub_field(d, &"login".to_owned()) {
            Some(None) => None,
            Some(Some(ld)) => match QUserLogin::from_doc(ld) {
                Some(l) => Some(l),
                None => { return None; },
            },
            None => { return None; },
        };
        let metadata = match read_sub_field(d, &"metadata".to_owned()) {
            Some(None) => None,
            Some(Some(md)) => match QUserMeta::from_doc(md) {
                Some(m) => Some(m),
                None => { return None; },
            },
            None => { return None; },
        };
        Some(QUser { id, active, login, metadata })
    }

    proof fn lemma_no_store_id(v: QUserV) {
        broadcast use crate::value::lemma_lookup_push;

        reveal_strlit("_id");
        reveal_strlit("id");
        reveal_strlit("active");
        reveal_strlit("login");
        reveal_strlit("metadata");
        assert("_id"@.len() == 3);
        assert("id"@.len() == 2);
        assert("active"@.len() == 6);
        assert("login"@.len() == 5);
        assert("metadata"@.len() == 8);
    }
}

/// The shape of the filter selecting a user by identifier.
pub open spec fn user_id_filter_v(id: Seq<char>) -> QUserV {
    QUserV { id: Some(id), active: None, login: None, metadata: None }
}

/// The shape of the filter selecting a user by username.
pub open spec fn user_name_filter_v(username: Seq<char>) -> QUserV {
    QUserV {
        id: None,
        active: None,
        login: Some(QUserLoginV { username: Some(username), pw: None, pwd_salt: None }),
        metadata: None,
    }
}

/// The shape of a freshly created user: active, with the given login.
pub open spec fn created_user_v(username: Seq<char>, salt: Seq<char>, pwd: Seq<char>) -> QUserV {
    QUserV {
        id: None,
        active: Some(true),
        login: Some(QUserLoginV { username: Some(username), pw: Some(pwd), pwd_salt: Some(salt) }),
        metadata: None,
    }
}

/// `u` with its login password replaced.
pub open spec fn pwd_updated_v(u: QUserV, pwd: Seq<char>) -> QUserV {
    QUserV {
        id: u.id,
        active: u.active,
        login: Some(
            QUserLoginV {
                username: u.login->0.username,
                pw: Some(pwd),
                pwd_salt: u.login->0.pwd_salt,
            },
        ),
        metadata: u.metadata,
    }
}

impl QUser {
    /// The filter record selecting the user with this identifier string.
    pub fn filter_id(id_string: &String) -> (r: Result<Self, Error>)
        ensures
            r matches Ok(u) && u@ == user_id_filter_v(id_string@),
    {
        Ok(
            QUser {
                id: Some(id_string.clone()),
                active: None,
                login: None,
                metadata: None,
            },
        )
    }

    /// The filter record selecting users with this username; it constrains
    /// the nested login record alone.
    pub fn filter_username(username: String) -> (r: Result<Self, Error>)
        ensures
            r matches Ok(u) && u@ == user_name_filter_v(username@),
    {
        let login = QUserLogin { username: Some(username), pw: None, pwd_salt: None };
        Ok(QUser { id: None, active: None, login: Some(login), metadata: None })
    }

    /// Builds the user record a creation stores: active, no metadata, the
    /// login holding the username, the hashed password and its salt. The
    /// hashing itself is the authentication collaborator's work; this takes
    /// its result as plain values.
    pub fn create_user(userc: QUserForCreate, salt: String, hashed_pwd: String) -> (r: Result<
        Self,
        Error,
    >)
        ensures
            r matches Ok(u) && u@ == created_user_v(userc.username@, salt@, hashed_pwd@),
    {
        let login = QUserLogin {
            username: Some(userc.username),
            pw: Some(hashed_pwd),
            pwd_salt: Some(salt),
        };
        Ok(QUser { id: None, active: Some(true), login: Some(login), metadata: None })
    }

    /// Replaces the login password with an already-hashed value. Fails with
    /// `UpdateError` exactly when the user carries no login record.
    pub fn update_pwd(self, new_pwd: String) -> (r: Result<Self, Error>)
        ensures
            self@.login is None <==> (r matches Err(e) && e is UpdateError),
            self@.login is Some ==> (r matches Ok(u) && u@ == pwd_updated_v(self@, new_pwd@)),
    {
        match self.login {
            Some(login) => {
                let new_login = QUserLogin {
                    username: login.username,
                    pw: Some(new_pwd),
                    pwd_salt: login.pwd_salt,
                };
                Ok(
                    QUser {
                        id: self.id,
                        active: self.active,
                        login: Some(new_login),
                        metadata: self.metadata,
                    },
                )
            },
            None => Err(Error::UpdateError),
        }
    }
}

/// The controller of the user entity: stateless, it binds users to their
/// collection and exposes the typed operations.
pub struct UserBmc;

impl DbBmc for UserBmc {
    open spec fn table_spec() -> Seq<char> {
        "Users"@
    }

    fn table_ref() -> (r: String) {
        "Users".to_owned()
    }
}

impl UserBmc {
    /// Creates a user from the creation record, the salt, and the password
    /// hashed under that salt; returns the store-assigned identifier.
    pub fn create(
        ctx: &Ctx,
        mm: &mut ModelManager,
        input: QUserForCreate,
        salt: String,
        hashed_pwd: String,
    ) -> (r: Result<String, Error>)
        requires
            old(mm).wf(),
            old(mm).can_assign_id(),
        ensures
            final(mm).wf(),
            r is Ok,
            r matches Ok(id) ==> {
                &&& id@ == hex_encode(ObjectId::of_counter(old(mm).next_id_spec()))
                &&& final(mm).collection(ctx.tenant_id_spec(), Self::table_spec()) == old(
                    mm,
                ).collection(ctx.tenant_id_spec(), Self::table_spec()).push(
                    QUser::doc_of(created_user_v(input.username@, salt@, hashed_pwd@)).push(
                        ("_id"@, ValV::Id(ObjectId::of_counter(old(mm).next_id_spec()))),
                    ),
                )
                &&& final(mm).next_id_spec() == old(mm).next_id_spec() + 1
            },
            forall|t2: Seq<char>, c2: Seq<char>|
                t2 != ctx.tenant_id_spec() || c2 != Self::table_spec()
                    ==> #[trigger] final(mm).collection(t2, c2) == old(mm).collection(t2, c2),
    {
        let new_user = match QUser::create_user(input, salt, hashed_pwd) {
            Ok(u) => u,
            Err(e) => { return Err(e); },
        };
        create::<UserBmc, QUser>(ctx, mm, new_user)
    }

    /// Fetches the user with the given identifier string. Fails with
    /// `ReadError` exactly when no user matches (in particular when the
    /// identifier string is malformed, which matches nothing the store
    /// assigned) or the stored document does not read back.
    pub fn get(ctx: &Ctx, mm: &ModelManager, id: &String) -> (r: Result<QUser, Error>)
        ensures
            ({
                let found = first_match(
                    mm.collection(ctx.tenant_id_spec(), Self::table_spec()),
                    filter_shape(QUser::doc_of(user_id_filter_v(id@))),
                );
                match found {
                    None => r matches Err(e) && e is ReadError,
                    Some(d) => match QUser::of_doc(translate_ids(d)) {
                        Some(v) => r matches Ok(x) && x@ == v,
                        None => r matches Err(e) && e is ReadError,
                    },
                }
            }),
    {
        let filter = match QUser::filter_id(id) {
            Ok(f) => f,
            Err(e) => { return Err(e); },
        };
        get::<UserBmc, QUser>(ctx, mm, filter)
    }

    /// Fetches the user with the given username, matching the nested login
    /// record through its flattened path.
    pub fn get_user_by_name(ctx: &Ctx, mm: &ModelManager, username: &String) -> (r: Result<
        QUser,
        Error,
    >)
        ensures
            ({
                let found = first_match(
                    mm.collection(ctx.tenant_id_spec(), Self::table_spec()),
                    filter_shape(QUser::doc_of(user_name_filter_v(username@))),
                );
                match found {
                    None => r matches Err(e) && e is ReadError,
                    Some(d) => match QUser::of_doc(translate_ids(d)) {
                        Some(v) => r matches Ok(x) && x@ == v,
                        None => r matches Err(e) && e is ReadError,
                    },
                }
            }),
    {
        let filter = match QUser::filter_username(username.clone()) {
            Ok(f) => f,
            Err(e) => { return Err(e); },
        };
        get::<UserBmc, QUser>(ctx, mm, filter)
    }

    /// Fetches the user with the given username and extracts the credential
    /// fields a login check needs. Fails with `ReadError` when no user
    /// matches, the document does not read back, or any needed field is
    /// absent.
    pub fn get_user_for_login(ctx: &Ctx, mm: &ModelManager, username: &String) -> (r: Result<
        QUserForLogin,
        Error,
    >)
        ensures
            ({
                let found = first_match(
                    mm.collection(ctx.tenant_id_spec(), Self::table_spec()),
                    filter_shape(QUser::doc_of(user_name_filter_v(username@))),
                );
                match found {
                    None => r is Err,
                    Some(d) => match QUser::of_doc(translate_ids(d)) {
                        Some(v) => {
                            if v.id is Some && (v.login matches Some(l) && l.username is Some
                                && l.pw is Some && l.pwd_salt is Some) {
                                r matches Ok(out) && out.id@ == v.id->0 && out.username@
                                    == v.login->0.username->0 && opt_view(out.pwd) == Some(
                                    v.login->0.pw->0,
                                ) && out.pwd_salt@ == v.login->0.pwd_salt->0
                            } else {
                                r is Err
                            }
                        },
                        None => r is Err,
                    },
                }
            }),
    {
        let user = Self::get_user_by_name(ctx, mm, username)?;
        let id = match user.id {
            Some(s) => s,
            None => { return Err(Error::ReadError); },
        };
        let login = match user.login {
            Some(l) => l,
            None => { return Err(Error::ReadError); },
        };
        let username_out = match login.username {
            Some(s) => s,
            None => { return Err(Error::ReadError); },
        };
        let pwd = match login.pw {
            Some(s) => s,
            None => { return Err(Error::ReadError); },
        };
        let pwd_salt = match login.pwd_salt {
            Some(s) => s,
            None => { return Err(Error::ReadError); },
        };
        Ok(QUserForLogin { id, username: username_out, pwd: Some(pwd), pwd_salt })
    }

    /// Fetches the user with the given username and extracts the identity
    /// fields a token validation needs. Fails with `ReadError` when no user
    /// matches, the document does not read back, or any needed field is
    /// absent.
    pub fn get_user_for_auth(ctx: &Ctx, mm: &ModelManager, username: &String) -> (r: Result<
        QUserForAuth,
        Error,
    >)
        ensures
            ({
                let found = first_match(
                    mm.collection(ctx.tenant_id_spec(), Self::table_spec()),
                    filter_shape(QUser::doc_of(user_name_filter_v(username@))),
                );
                match found {
                    None => r is Err,
                    Some(d) => match QUser::of_doc(translate_ids(d)) {
                        Some(v) => {
                            if v.id is Some && (v.login matches Some(l) && l.username is Some
                                && l.pwd_salt is Some) {
                                r matches Ok(out) && out.id@ == v.id->0 && out.username@
                                    == v.login->0.username->0 && out.pwd_salt@
                                    == v.login->0.pwd_salt->0
                            } else {
                                r is Err
                            }
                        },
                        None => r is Err,
                    },
                }
            }),
    {
        let user = Self::get_user_by_name(ctx, mm, username)?;
        let id = match user.id {
            Some(s) => s,
            None => { return Err(Error::ReadError); },
        };
        let login = match user.login {
            Some(l) => l,
            None => { return Err(Error::ReadError); },
        };
        let username_out = match login.username {
            Some(s) => s,
            None => { return Err(Error::ReadError); },
        };
        let pwd_salt = match login.pwd_salt {
            Some(s) => s,
            None => { return Err(Error::ReadError); },
        };
        Ok(QUserForAuth { id, username: username_out, pwd_salt })
    }

    /// Replaces the stored password hash of the user with the given
    /// identifier. The password is hashed by the authentication
    /// collaborator under the user's stored salt; this takes the result.
    pub fn update_pwd(ctx: &Ctx, mm: &mut ModelManager, id: &String, hashed_pwd: &str) -> (r:
        Result<(), Error>)
        requires
            old(mm).wf(),
        ensures
            final(mm).wf(),
            ({
                let found = first_match(
                    old(mm).collection(ctx.tenant_id_spec(), Self::table_spec()),
                    filter_shape(QUser::doc_of(user_id_filter_v(id@))),
                );
                match found {
                    None => r is Err && *final(mm) == *old(mm),
                    Some(d) => match QUser::of_doc(translate_ids(d)) {
                        Some(v) => {
                            if v.login is Some && is_oid_string(id@) {
                                r is Ok && final(mm).collection(
                                    ctx.tenant_id_spec(),
                                    Self::table_spec(),
                                ) == apply_update(
                                    old(mm).collection(ctx.tenant_id_spec(), Self::table_spec()),
                                    id_filter(id@),
                                    QUser::doc_of(pwd_updated_v(v, hashed_pwd@)),
                                )
                            } else {
                                r is Err && *final(mm) == *old(mm)
                            }
                        },
                        None => r is Err && *final(mm) == *old(mm),
                    },
                }
            }),
            forall|t2: Seq<char>, c2: Seq<char>|
                t2 != ctx.tenant_id_spec() || c2 != Self::table_spec()
                    ==> #[trigger] final(mm).collection(t2, c2) == old(mm).collection(t2, c2),
    {
        let user = Self::get(ctx, mm, id)?;
        if user.login.is_some() {
            let updated_user = user.update_pwd(hashed_pwd.to_owned())?;
            update::<UserBmc, QUser>(ctx, mm, id, updated_user)
        } else {
            Err(Error::UpdateError)
        }
    }

    /// Fetches every user matching the filter, or every user at all when no
    /// filter is given.
    pub fn list(ctx: &Ctx, mm: &ModelManager, filter: Option<QUser>) -> (r: Result<
        Vec<QUser>,
        Error,
    >)
        ensures
            ({
                let f = match filter {
                    Some(f) => f@,
                    None => QUserV { id: None, active: None, login: None, metadata: None },
                };
                let sel = matching(
                    mm.collection(ctx.tenant_id_spec(), Self::table_spec()),
                    filter_shape(QUser::doc_of(f)),
                );
                match r {
                    Ok(v) => {
                        &&& v@.len() == sel.len()
                        &&& forall|i: int|
                            0 <= i < sel.len() ==> QUser::of_doc(translate_ids(sel[i])) == Some(
                                (#[trigger] v@[i])@,
                            )
                    },
                    Err(e) => e is QueryError,
                }
            }),
    {
        let filter_doc = match filter {
            Some(f) => f,
            None => QUser { id: None, active: None, login: None, metadata: None },
        };
        list::<UserBmc, QUser>(ctx, mm, filter_doc)
    }

    /// Deletes the user with the given identifier string; deleting zero
    /// matches is not distinguished from deleting one.
    pub fn delete(ctx: &Ctx, mm: &mut ModelManager, id: &String) -> (r: Result<(), Error>)
        requires
            old(mm).wf(),
        ensures
            final(mm).wf(),
            r is Ok,
            final(mm).collection(ctx.tenant_id_spec(), Self::table_spec()) == remove_first(
                old(mm).collection(ctx.tenant_id_spec(), Self::table_spec()),
                filter_shape(QUser::doc_of(user_id_filter_v(id@))),
            ),
            forall|t2: Seq<char>, c2: Seq<char>|
                t2 != ctx.tenant_id_spec() || c2 != Self::table_spec()
                    ==> #[trigger] final(mm).collection(t2, c2) == old(mm).collection(t2, c2),
    {
        let filter = match QUser::filter_id(id) {
            Ok(f) => f,
            Err(e) => { return Err(e); },
        };
        delete::<UserBmc, QUser>(ctx, mm, filter)
    }
}

} // verus!
