//! The values that travel between the client and the backend, and the
//! requests that ask for them.

pub mod request;

use crate::api::request::{api, opt_str, Body, BodyView, Request, RequestView, headers_for};
use crate::text::{
    clone_option, clone_texts, decimal, decimal_text, join_texts, joined, opt_text, same_option,
    texts,
};
use vstd::prelude::*;
use vstd::string::*;

verus! {

/// Where the backend listens.
pub const API_URL: &'static str = "https://conduit.productionready.io/api";

/// A user, as the backend describes the one who is signed in.
#[derive(Debug)]
pub struct User {
    pub email: String,
    pub token: String,
    pub username: String,
    pub bio: Option<String>,
    pub image: Option<String>,
}

/// A user with its texts as sequences of characters.
pub struct UserView {
    pub email: Seq<char>,
    pub token: Seq<char>,
    pub username: Seq<char>,
    pub bio: Option<Seq<char>>,
    pub image: Option<Seq<char>>,
}

impl View for User {
    type V = UserView;

    open spec fn view(&self) -> UserView {
        UserView {
            email: self.email@,
            token: self.token@,
            username: self.username@,
            bio: opt_text(self.bio),
            image: opt_text(self.image),
        }
    }
}

impl Clone for User {
    fn clone(&self) -> (copy: User)
        ensures
            copy@ == self@,
    {
        User {
            email: self.email.clone(),
            token: self.token.clone(),
            username: self.username.clone(),
            bio: clone_option(&self.bio),
            image: clone_option(&self.image),
        }
    }
}

impl PartialEq for User {
    fn eq(&self, other: &User) -> (same: bool) {
        self.email == other.email && self.token == other.token && self.username == other.username
            && same_option(&self.bio, &other.bio) && same_option(&self.image, &other.image)
    }
}

impl vstd::std_specs::cmp::PartialEqSpecImpl for User {
    open spec fn obeys_eq_spec() -> bool {
        true
    }

    open spec fn eq_spec(&self, other: &User) -> bool {
        self@ == other@
    }
}

/// The view of a user who may be absent.
pub open spec fn opt_user(o: Option<User>) -> Option<UserView> {
    match o {
        Some(user) => Some(user@),
        None => None,
    }
}

/// Whether two users who may be absent are the same.
pub fn same_user(a: &Option<User>, b: &Option<User>) -> (same: bool)
    ensures
        same == (opt_user(*a) == opt_user(*b)),
{
    match (a, b) {
        (Some(x), Some(y)) => *x == *y,
        (None, None) => true,
        _ => false,
    }
}

/// What a user enters to register or to log in.
#[derive(Debug)]
pub struct UserRegistration {
    pub email: Option<String>,
    pub username: Option<String>,
    pub password: Option<String>,
}

/// A registration with its texts as sequences of characters.
pub struct UserRegistrationView {
    pub email: Option<Seq<char>>,
    pub username: Option<Seq<char>>,
    pub password: Option<Seq<char>>,
}

impl View for UserRegistration {
    type V = UserRegistrationView;

    open spec fn view(&self) -> UserRegistrationView {
        UserRegistrationView {
            email: opt_text(self.email),
            username: opt_text(self.username),
            password: opt_text(self.password),
        }
    }
}

impl Clone for UserRegistration {
    fn clone(&self) -> (copy: UserRegistration)
        ensures
            copy@ == self@,
    {
        UserRegistration {
            email: clone_option(&self.email),
            username: clone_option(&self.username),
            password: clone_option(&self.password),
        }
    }
}

/// The changes that a user asks for in the settings. What is absent stays
/// as it is.
#[derive(Debug)]
pub struct UserUpdate {
    pub email: Option<String>,
    pub username: Option<String>,
    pub bio: Option<String>,
    pub image: Option<String>,
    pub password: Option<String>,
}

/// An update with its texts as sequences of characters.
pub struct UserUpdateView {
    pub email: Option<Seq<char>>,
    pub username: Option<Seq<char>>,
    pub bio: Option<Seq<char>>,
    pub image: Option<Seq<char>>,
    pub password: Option<Seq<char>>,
}

impl View for UserUpdate {
    type V = UserUpdateView;

    open spec fn view(&self) -> UserUpdateView {
        UserUpdateView {
            email: opt_text(self.email),
            username: opt_text(self.username),
            bio: opt_text(self.bio),
            image: opt_text(self.image),
            password: opt_text(self.password),
        }
    }
}

impl Clone for UserUpdate {
    fn clone(&self) -> (copy: UserUpdate)
        ensures
            copy@ == self@,
    {
        UserUpdate {
            email: clone_option(&self.email),
            username: clone_option(&self.username),
            bio: clone_option(&self.bio),
            image: clone_option(&self.image),
            password: clone_option(&self.password),
        }
    }
}

impl Default for UserUpdate {
    /// The update that changes nothing.
    fn default() -> (update: UserUpdate)
        ensures
            update@ == (UserUpdateView {
                email: None,
                username: None,
                bio: None,
                image: None,
                password: None,
            }),
    {
        UserUpdate { email: None, username: None, bio: None, image: None, password: None }
    }
}

/// A user as others see them.
#[derive(Debug)]
pub struct UserProfile {
    pub username: String,
    pub bio: String,
    pub image: String,
    pub following: bool,
}

/// A profile with its texts as sequences of characters.
pub struct UserProfileView {
    pub username: Seq<char>,
    pub bio: Seq<char>,
    pub image: Seq<char>,
    pub following: bool,
}

impl View for UserProfile {
    type V = UserProfileView;

    open spec fn view(&self) -> UserProfileView {
        UserProfileView {
            username: self.username@,
            bio: self.bio@,
            image: self.image@,
            following: self.following,
        }
    }
}

impl Clone for UserProfile {
    fn clone(&self) -> (copy: UserProfile)
        ensures
            copy@ == self@,
    {
        UserProfile {
            username: self.username.clone(),
            bio: self.bio.clone(),
            image: self.image.clone(),
            following: self.following,
        }
    }
}

/// The profile that a user shows of themselves: what they left out is
/// empty, and nobody follows themselves.
pub open spec fn profile_of(user: UserView) -> UserProfileView {
    UserProfileView {
        username: user.username,
        bio: match user.bio {
            Some(bio) => bio,
            None => Seq::<char>::empty(),
        },
        image: match user.image {
            Some(image) => image,
            None => Seq::<char>::empty(),
        },
        following: false,
    }
}

impl From<User> for UserProfile {
    /// The profile that the user shows of themselves.
    fn from(user: User) -> (profile: UserProfile)
        ensures
            profile@ == profile_of(user@),
    {
        UserProfile {
            username: user.username,
            bio: match user.bio {
                Some(bio) => bio,
                None => String::new(),
            },
            image: match user.image {
                Some(image) => image,
                None => String::new(),
            },
            following: false,
        }
    }
}

impl vstd::std_specs::convert::FromSpecImpl<User> for UserProfile {
    /// The conversion is stated over views, on `from` itself: two strings
    /// with the same characters need not be the same value.
    open spec fn obeys_from_spec() -> bool {
        false
    }

    open spec fn from_spec(user: User) -> UserProfile {
        arbitrary()
    }
}

/// An article with what the backend says of it.
#[derive(Debug)]
pub struct Article {
    pub slug: String,
    pub title: String,
    pub description: String,
    pub body: String,
    pub tag_list: Vec<String>,
    pub favorited: bool,
    pub favorites_count: u32,
    pub author: UserProfile,
}

/// An article with its texts as sequences of characters.
pub struct ArticleView {
    pub slug: Seq<char>,
    pub title: Seq<char>,
    pub description: Seq<char>,
    pub body: Seq<char>,
    pub tag_list: Seq<Seq<char>>,
    pub favorited: bool,
    pub favorites_count: u32,
    pub author: UserProfileView,
}

impl View for Article {
    type V = ArticleView;

    open spec fn view(&self) -> ArticleView {
        ArticleView {
            slug: self.slug@,
            title: self.title@,
            description: self.description@,
            body: self.body@,
            tag_list: texts(self.tag_list@),
            favorited: self.favorited,
            favorites_count: self.favorites_count,
            author: self.author@,
        }
    }
}

impl Clone for Article {
    fn clone(&self) -> (copy: Article)
        ensures
            copy@ == self@,
    {
        Article {
            slug: self.slug.clone(),
            title: self.title.clone(),
            description: self.description.clone(),
            body: self.body.clone(),
            tag_list: clone_texts(&self.tag_list),
            favorited: self.favorited,
            favorites_count: self.favorites_count,
            author: self.author.clone(),
        }
    }
}

/// The views of a list of articles.
pub open spec fn article_views(articles: Seq<Article>) -> Seq<ArticleView> {
    Seq::new(articles.len(), |i: int| articles[i]@)
}

/// One page of articles, and how many there are in all.
#[derive(Debug)]
pub struct Articles {
    pub articles: Vec<Article>,
    pub article_count: u32,
}

/// A page of articles with its texts as sequences of characters.
pub struct ArticlesView {
    pub articles: Seq<ArticleView>,
    pub article_count: u32,
}

impl View for Articles {
    type V = ArticlesView;

    open spec fn view(&self) -> ArticlesView {
        ArticlesView {
            articles: article_views(self.articles@),
            article_count: self.article_count,
        }
    }
}

impl Clone for Articles {
    fn clone(&self) -> (copy: Articles)
        ensures
            copy@ == self@,
    {
        let mut articles: Vec<Article> = Vec::new();
        let mut i: usize = 0;
        while i < self.articles.len()
            invariant
                i <= self.articles.len(),
                articles@.len() == i,
                forall|k: int| 0 <= k < i ==> articles@[k]@ == self.articles@[k]@,
            decreases self.articles.len() - i,
        {
            articles.push(self.articles[i].clone());
            i += 1;
        }
        assert(article_views(articles@) =~= article_views(self.articles@));
        Articles { articles, article_count: self.article_count }
    }
}

/// The request that logs a user in: `POST /users/login`.
pub fn auth_user(user: UserRegistration) -> (request: Request)
    ensures
        request@ == (RequestView {
            url: API_URL@ + "/users/login"@,
            method: "POST"@,
            headers: headers_for(None),
            body: Some(BodyView::Registration(user@)),
        }),
{
    let mut url = String::from_str(API_URL);
    url.append("/users/login");
    api(url.as_str(), "POST", Some(Body::Registration(user)), None)
}

/// The request that registers a user: `POST /users`.
pub fn register_user(user: UserRegistration) -> (request: Request)
    ensures
        request@ == (RequestView {
            url: API_URL@ + "/users"@,
            method: "POST"@,
            headers: headers_for(None),
            body: Some(BodyView::Registration(user@)),
        }),
{
    let mut url = String::from_str(API_URL);
    url.append("/users");
    api(url.as_str(), "POST", Some(Body::Registration(user)), None)
}

/// The request that changes the user who holds `token`: `PUT /user`.
pub fn update_user(user: UserUpdate, token: &str) -> (request: Request)
    ensures
        request@ == (RequestView {
            url: API_URL@ + "/user"@,
            method: "PUT"@,
            headers: headers_for(Some(token@)),
            body: Some(BodyView::Update(user@)),
        }),
{
    let mut url = String::from_str(API_URL);
    url.append("/user");
    api(url.as_str(), "PUT", Some(Body::Update(user)), Some(token))
}

/// The request that asks for the user who holds `token`: `GET /user`.
pub fn get_user(token: &str) -> (request: Request)
    ensures
        request@ == (RequestView {
            url: API_URL@ + "/user"@,
            method: "GET"@,
            headers: headers_for(Some(token@)),
            body: None,
        }),
{
    let mut url = String::from_str(API_URL);
    url.append("/user");
    api(url.as_str(), "GET", None, Some(token))
}

/// The request that asks for the profile of `username`:
/// `GET /profiles/:username`.
pub fn get_profile(username: &str, o_token: Option<&str>) -> (request: Request)
    ensures
        request@ == (RequestView {
            url: API_URL@ + "/profiles/"@ + username@,
            method: "GET"@,
            headers: headers_for(opt_str(o_token)),
            body: None,
        }),
{
    let mut url = String::from_str(API_URL);
    url.append("/profiles/");
    url.append(username);
    api(url.as_str(), "GET", None, o_token)
}

/// One parameter of a query, if it has a value.
pub open spec fn param(name: Seq<char>, o_value: Option<Seq<char>>) -> Seq<Seq<char>> {
    match o_value {
        Some(value) => seq![name + "="@ + value],
        None => Seq::<Seq<char>>::empty(),
    }
}

/// A number that may be absent, in decimal.
pub open spec fn opt_decimal(o: Option<u32>) -> Option<Seq<char>> {
    match o {
        Some(n) => Some(decimal(n as nat)),
        None => None,
    }
}

/// The query that selects articles: nothing where nothing is asked, else a
/// question mark and the parameters that have a value, in the order tag,
/// author, favorited, limit, offset, with `&` between them.
pub open spec fn articles_query(
    o_author: Option<Seq<char>>,
    o_tag: Option<Seq<char>>,
    o_favorited: Option<Seq<char>>,
    o_limit: Option<u32>,
    o_offset: Option<u32>,
) -> Seq<char> {
    let params = param("tag"@, o_tag) + param("author"@, o_author) + param(
        "favorited"@,
        o_favorited,
    ) + param("limit"@, opt_decimal(o_limit)) + param("offset"@, opt_decimal(o_offset));
    if params.len() == 0 {
        Seq::<char>::empty()
    } else {
        "?"@ + joined(params, "&"@)
    }
}

fn push_param(params: &mut Vec<String>, name: &str, o_value: Option<&str>)
    ensures
        texts(final(params)@) == texts(old(params)@) + param(name@, opt_str(o_value)),
{
    match o_value {
        Some(value) => {
            let mut text = String::from_str(name);
            text.append("=");
            text.append(value);
            params.push(text);
            assert(texts(params@) =~= texts(old(params)@) + seq![text@]);
        },
        None => {
            assert(texts(params@) =~= texts(old(params)@) + Seq::<Seq<char>>::empty());
        },
    }
}

/// The request that asks for articles: `GET /articles` with the query that
/// selects them.
pub fn get_articles(
    o_author: Option<&str>,
    o_tag: Option<&str>,
    o_favorited: Option<&str>,
    o_limit: Option<u32>,
    o_offset: Option<u32>,
    o_token: Option<&str>,
) -> (request: Request)
    ensures
        request@ == (RequestView {
            url: API_URL@ + "/articles"@ + articles_query(
                opt_str(o_author),
                opt_str(o_tag),
                opt_str(o_favorited),
                o_limit,
                o_offset,
            ),
            method: "GET"@,
            headers: headers_for(opt_str(o_token)),
            body: None,
        }),
{
    let mut params: Vec<String> = Vec::new();
    assert(texts(params@) =~= Seq::<Seq<char>>::empty());
    push_param(&mut params, "tag", o_tag);
    push_param(&mut params, "author", o_author);
    push_param(&mut params, "favorited", o_favorited);
    match o_limit {
        Some(limit) => {
            let text = decimal_text(limit);
            push_param(&mut params, "limit", Some(text.as_str()));
        },
        None => {
            push_param(&mut params, "limit", None);
        },
    }
    match o_offset {
        Some(offset) => {
            let text = decimal_text(offset);
            push_param(&mut params, "offset", Some(text.as_str()));
        },
        None => {
            push_param(&mut params, "offset", None);
        },
    }
    let mut url = String::from_str(API_URL);
    url.append("/articles");
    if params.len() > 0 {
        url.append("?");
        url.append(join_texts(&params, "&").as_str());
    }
    proof {
        let query = articles_query(
            opt_str(o_author),
            opt_str(o_tag),
            opt_str(o_favorited),
            o_limit,
            o_offset,
        );
        if params.len() > 0 {
            assert(url@ =~= API_URL@ + "/articles"@ + query);
        } else {
            assert(url@ =~= API_URL@ + "/articles"@ + query);
        }
    }
    api(url.as_str(), "GET", None, o_token)
}

} // verus!
