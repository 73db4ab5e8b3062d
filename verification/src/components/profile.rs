//! The page of one user: who they are, and what they have written.

use crate::api::request::{headers_for, Request, RequestView};
use crate::api::{
    articles_query, get_articles, get_profile, Article, ArticleView, Articles, UserProfile, API_URL,
};
use crate::component::Command;
use crate::patch::Patch;
use crate::store::{read_result, read_user, Storage, StorageView};
use crate::text::{decimal, decimal_text, same_text};
use vstd::prelude::*;
use vstd::string::*;

verus! {

/// What the list of articles shows of one article.
#[derive(Debug)]
pub struct ArticlePreview {
    pub image: String,
    pub author: String,
    pub favorites: String,
    pub title: String,
    pub description: String,
}

/// A preview with its texts as sequences of characters.
pub struct ArticlePreviewView {
    pub image: Seq<char>,
    pub author: Seq<char>,
    pub favorites: Seq<char>,
    pub title: Seq<char>,
    pub description: Seq<char>,
}

impl View for ArticlePreview {
    type V = ArticlePreviewView;

    open spec fn view(&self) -> ArticlePreviewView {
        ArticlePreviewView {
            image: self.image@,
            author: self.author@,
            favorites: self.favorites@,
            title: self.title@,
            description: self.description@,
        }
    }
}

impl Clone for ArticlePreview {
    fn clone(&self) -> (copy: ArticlePreview)
        ensures
            copy@ == self@,
    {
        ArticlePreview {
            image: self.image.clone(),
            author: self.author.clone(),
            favorites: self.favorites.clone(),
            title: self.title.clone(),
            description: self.description.clone(),
        }
    }
}

/// The preview of an article: its author with their image, its title and
/// description, and behind a space how many have made it a favorite.
pub open spec fn preview_of(article: ArticleView) -> ArticlePreviewView {
    ArticlePreviewView {
        image: article.author.image,
        author: article.author.username,
        favorites: " "@ + decimal(article.favorites_count as nat),
        title: article.title,
        description: article.description,
    }
}

/// The preview of an article.
pub fn article_builder(article: &Article) -> (preview: ArticlePreview)
    ensures
        preview@ == preview_of(article@),
{
    let mut favorites = String::from_str(" ");
    favorites.append(decimal_text(article.favorites_count).as_str());
    ArticlePreview {
        image: article.author.image.clone(),
        author: article.author.username.clone(),
        favorites,
        title: article.title.clone(),
        description: article.description.clone(),
    }
}

/// The label of the button that follows a user.
pub fn follow_label(username: &str) -> (label: String)
    ensures
        label@ == " Follow "@ + username@,
{
    let mut label = String::from_str(" Follow ");
    label.append(username);
    label
}

/// The page of one user.
#[derive(Debug)]
pub struct Profile {
    pub username: String,
    pub profile: Option<UserProfile>,
    pub is_favorites: bool,
    pub is_self: bool,
}

/// What the page is told.
#[derive(Debug)]
pub enum In {
    /// The backend has sent these articles.
    Articles(Articles),
    /// The backend has sent this profile.
    Profile(UserProfile),
}

/// What the page tells its view.
#[derive(Debug)]
pub enum Out {
    /// The list of articles changes so.
    ArticlePatch(Patch<ArticlePreview>),
    /// The user is this.
    Profile(UserProfile),
}

/// A patch of a list of previews, with its texts as sequences of
/// characters.
pub open spec fn preview_patch(patch: Patch<ArticlePreview>) -> Patch<ArticlePreviewView> {
    match patch {
        Patch::PushBack { value } => Patch::PushBack { value: value@ },
        Patch::RemoveAll => Patch::RemoveAll,
        Patch::Replace { index, value } => Patch::Replace { index, value: value@ },
    }
}

impl Out {
    /// The patch to the list of articles, where the message brings one.
    pub fn articles(&self) -> (patch: Option<Patch<ArticlePreview>>)
        ensures
            match self {
                Out::ArticlePatch(p) => patch matches Some(found) && preview_patch(found)
                    == preview_patch(*p),
                _ => patch is None,
            },
    {
        match self {
            Out::ArticlePatch(Patch::PushBack { value }) => Some(
                Patch::PushBack { value: value.clone() },
            ),
            Out::ArticlePatch(Patch::RemoveAll) => Some(Patch::RemoveAll),
            Out::ArticlePatch(Patch::Replace { index, value }) => Some(
                Patch::Replace { index: *index, value: value.clone() },
            ),
            _ => None,
        }
    }

    /// The user, where the message brings one.
    pub fn user(&self) -> (user: Option<UserProfile>)
        ensures
            match self {
                Out::Profile(p) => user matches Some(found) && found@ == p@,
                _ => user is None,
            },
    {
        match self {
            Out::Profile(user) => Some(user.clone()),
            _ => None,
        }
    }
}

/// What the page asks of the backend when it is mounted.
#[derive(Debug)]
pub struct Fetches {
    /// The request for the profile; its answer comes back as `In::Profile`.
    pub profile: Request,
    /// The request for the articles; its answer comes back as
    /// `In::Articles`.
    pub articles: Request,
}

/// The token of the user that the storage holds, if it holds one.
pub open spec fn token_read(storage: StorageView) -> Option<Seq<char>> {
    match read_result(storage) {
        Ok(user) => Some(user.token),
        Err(_) => None,
    }
}

/// Whether the storage holds the user named `username`.
pub open spec fn holds_user(storage: StorageView, username: Seq<char>) -> bool {
    match read_result(storage) {
        Ok(user) => user.username == username,
        Err(_) => false,
    }
}

/// Whether `commands` makes the list of articles show the previews of
/// `articles` and nothing else: remove all, then append each preview.
pub open spec fn shows_articles(commands: Seq<Command<In, Out>>, articles: Seq<ArticleView>) -> bool {
    &&& commands.len() == articles.len() + 1
    &&& commands[0] matches Command::Send(Out::ArticlePatch(Patch::RemoveAll))
    &&& forall|i: int|
        0 <= i < articles.len() ==> ((#[trigger] commands[i + 1]) matches Command::Send(
            Out::ArticlePatch(Patch::PushBack { value }),
        ) && value@ == preview_of(articles[i]))
}

impl Profile {
    /// The page of `username`, before the backend has said anything. The
    /// page is the user's own if the storage holds a user of that name.
    pub fn new(username: String, is_favorites: bool, storage: &Storage) -> (page: Profile)
        ensures
            page.username@ == username@,
            page.profile is None,
            page.is_favorites == is_favorites,
            page.is_self == holds_user(storage@, username@),
    {
        let is_self = match read_user(storage) {
            Ok(user) => user.username == username,
            Err(_) => false,
        };
        Profile { profile: None, is_self, username, is_favorites }
    }

    /// What the page asks of the backend when it is mounted: the profile of
    /// its user, and the articles that they have written. Both requests show
    /// the token of the user that the storage holds, if it holds one.
    pub fn bind(&self, storage: &Storage) -> (fetches: Fetches)
        ensures
            fetches.profile@ == (RequestView {
                url: API_URL@ + "/profiles/"@ + self.username@,
                method: "GET"@,
                headers: headers_for(token_read(storage@)),
                body: None,
            }),
            fetches.articles@ == (RequestView {
                url: API_URL@ + "/articles"@ + articles_query(
                    Some(self.username@),
                    None,
                    None,
                    None,
                    None,
                ),
                method: "GET"@,
                headers: headers_for(token_read(storage@)),
                body: None,
            }),
    {
        let o_token = match read_user(storage) {
            Ok(user) => Some(user.token),
            Err(_) => None,
        };
        let o_token_text = match &o_token {
            Some(token) => Some(token.as_str()),
            None => None,
        };
        Fetches {
            profile: get_profile(self.username.as_str(), o_token_text),
            articles: get_articles(
                Some(self.username.as_str()),
                None,
                None,
                None,
                None,
                o_token_text,
            ),
        }
    }

    /// Answers one message.
    ///
    /// Articles take the place of all that the list showed before, each as
    /// its preview, in the order in which they came. A profile is kept and
    /// told to the view; the page is the user's own if the profile bears the
    /// name of the page.
    pub fn update(&mut self, msg: &In) -> (commands: Vec<Command<In, Out>>)
        ensures
            final(self).username@ == old(self).username@,
            final(self).is_favorites == old(self).is_favorites,
            match msg {
                In::Articles(articles) => {
                    &&& final(self).is_self == old(self).is_self
                    &&& final(self).profile == old(self).profile
                    &&& shows_articles(commands@, articles@.articles)
                },
                In::Profile(user) => {
                    &&& final(self).is_self == (user@.username == old(self).username@)
                    &&& final(self).profile matches Some(kept) && kept@ == user@
                    &&& commands@.len() == 1
                    &&& commands@[0] matches Command::Send(Out::Profile(told)) && told@ == user@
                },
            },
    {
        let mut commands: Vec<Command<In, Out>> = Vec::new();
        match msg {
            In::Articles(articles) => {
                commands.push(Command::Send(Out::ArticlePatch(Patch::RemoveAll)));
                let mut i: usize = 0;
                while i < articles.articles.len()
                    invariant
                        i <= articles.articles.len(),
                        commands@.len() == i + 1,
                        commands@[0] matches Command::Send(Out::ArticlePatch(Patch::RemoveAll)),
                        forall|k: int|
                            0 <= k < i ==> ((#[trigger] commands@[k + 1]) matches Command::Send(
                                Out::ArticlePatch(Patch::PushBack { value }),
                            ) && value@ == preview_of(articles.articles@[k]@)),
                    decreases articles.articles.len() - i,
                {
                    let preview = article_builder(&articles.articles[i]);
                    commands.push(
                        Command::Send(Out::ArticlePatch(Patch::PushBack { value: preview })),
                    );
                    i += 1;
                }
            },
            In::Profile(user) => {
                self.is_self = same_text(user.username.as_str(), self.username.as_str());
                self.profile = Some(user.clone());
                commands.push(Command::Send(Out::Profile(user.clone())));
            },
        }
        commands
    }
}

} // verus!
