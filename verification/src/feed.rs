//! Podcasts and their episodes, and the decision which episodes to fetch and
//! under which file name.

use vstd::prelude::*;
use vstd::string::*;
use crate::config::{download_count_of, Config};
use crate::library::DownloadedSet;
use crate::text::{find_extension, is_extension, lemma_stem_of_file_name, lemma_url_extension_shape, same_text, stem, url_extension};

verus! {

/// One item of a feed. Within a podcast's directory an episode is known by
/// its title.
#[derive(Clone, Debug, PartialEq, Eq)]
pub struct Episode {
    pub title: Option<String>,
    pub enclosure_url: Option<String>,
    pub mime_type: Option<String>,
}

/// What an `Episode` holds, as plain text.
pub struct EpisodeView {
    pub title: Option<Seq<char>>,
    pub enclosure_url: Option<Seq<char>>,
    pub mime_type: Option<Seq<char>>,
}

/// A feed: its title, its link and its episodes in the feed's order.
#[derive(Clone, Debug, PartialEq, Eq)]
pub struct Podcast {
    pub title: String,
    pub link: String,
    pub episodes: Vec<Episode>,
}

/// What a `Podcast` holds, as plain text.
pub struct PodcastView {
    pub title: Seq<char>,
    pub link: Seq<char>,
    pub episodes: Seq<EpisodeView>,
}

/// One transfer to make: fetch `url` and store it as `file_name` in the
/// directory named `directory` under the podcast root.
#[derive(Clone, Debug, PartialEq, Eq)]
pub struct DownloadJob {
    pub url: String,
    pub directory: String,
    pub file_name: String,
}

/// What a `DownloadJob` holds, as plain text.
pub struct JobView {
    pub url: Seq<char>,
    pub directory: Seq<char>,
    pub file_name: Seq<char>,
}

/// Why an episode that should be fetched cannot be.
#[derive(Clone, Copy, Debug, PartialEq, Eq, Structural)]
pub enum DownloadError {
    /// Neither the MIME type nor the URL tells the file's extension.
    NoExtension,
}

/// What to do about one episode.
#[derive(Clone, Debug, PartialEq, Eq)]
pub enum EpisodeAction {
    /// Nothing: it is on disk already, or it lacks a title or an enclosure.
    Skip,
    /// Make this transfer.
    Fetch(DownloadJob),
    /// Report this failure; the other episodes go on.
    Fail(DownloadError),
}

/// What an `EpisodeAction` holds, as plain text.
pub enum ActionView {
    Skip,
    Fetch(JobView),
    Fail(DownloadError),
}

/// The text of an optional string.
pub open spec fn text_of(s: Option<String>) -> Option<Seq<char>> {
    match s {
        Some(t) => Some(t@),
        None => None,
    }
}

impl View for Episode {
    type V = EpisodeView;

    open spec fn view(&self) -> EpisodeView {
        EpisodeView {
            title: text_of(self.title),
            enclosure_url: text_of(self.enclosure_url),
            mime_type: text_of(self.mime_type),
        }
    }
}

/// The views of a sequence of episodes.
pub open spec fn episode_views(episodes: Seq<Episode>) -> Seq<EpisodeView> {
    Seq::new(episodes.len(), |i: int| episodes[i]@)
}

impl View for Podcast {
    type V = PodcastView;

    open spec fn view(&self) -> PodcastView {
        PodcastView {
            title: self.title@,
            link: self.link@,
            episodes: episode_views(self.episodes@),
        }
    }
}

impl View for DownloadJob {
    type V = JobView;

    open spec fn view(&self) -> JobView {
        JobView { url: self.url@, directory: self.directory@, file_name: self.file_name@ }
    }
}

impl View for EpisodeAction {
    type V = ActionView;

    open spec fn view(&self) -> ActionView {
        match self {
            EpisodeAction::Skip => ActionView::Skip,
            EpisodeAction::Fetch(job) => ActionView::Fetch(job@),
            EpisodeAction::Fail(e) => ActionView::Fail(*e),
        }
    }
}

/// The view of what `Episode::download` returns.
pub open spec fn outcome_view(r: Result<Option<DownloadJob>, DownloadError>) -> Result<
    Option<JobView>,
    DownloadError,
> {
    match r {
        Ok(Some(job)) => Ok(Some(job@)),
        Ok(None) => Ok(None),
        Err(e) => Err(e),
    }
}

/// The extension of an episode's file: fixed for the three audio MIME types
/// that are known, else the one that the enclosure URL's path ends in.
pub open spec fn extension_of(ep: EpisodeView) -> Option<Seq<char>> {
    if ep.mime_type == Some("audio/mpeg"@) {
        Some(".mp3"@)
    } else if ep.mime_type == Some("audio/mp4"@) {
        Some(".m4a"@)
    } else if ep.mime_type == Some("audio/ogg"@) {
        Some(".ogg"@)
    } else {
        match ep.enclosure_url {
            Some(url) => url_extension(url),
            None => None,
        }
    }
}

/// What fetching one episode of the podcast titled `podcast` comes to: no
/// transfer without both an enclosure URL and a title, a failure without an
/// extension, else the transfer into `<podcast>/<title><extension>`.
pub open spec fn download_of(ep: EpisodeView, podcast: Seq<char>) -> Result<
    Option<JobView>,
    DownloadError,
> {
    match (ep.enclosure_url, ep.title) {
        (Some(url), Some(title)) => match extension_of(ep) {
            Some(ext) => Ok(Some(JobView { url: url, directory: podcast, file_name: title + ext })),
            None => Err(DownloadError::NoExtension),
        },
        _ => Ok(None),
    }
}

/// What a download pass does about one episode: it skips one without a title
/// and one whose title is among `downloaded`, and tries to fetch any other.
pub open spec fn action_for(ep: EpisodeView, podcast: Seq<char>, downloaded: Set<Seq<char>>) -> ActionView {
    match ep.title {
        None => ActionView::Skip,
        Some(title) => if downloaded.contains(title) {
            ActionView::Skip
        } else {
            match download_of(ep, podcast) {
                Ok(Some(job)) => ActionView::Fetch(job),
                Ok(None) => ActionView::Skip,
                Err(e) => ActionView::Fail(e),
            }
        },
    }
}

/// A copy of an optional string.
pub fn copy_text(s: &Option<String>) -> (r: Option<String>)
    ensures
        text_of(r) == text_of(*s),
{
    match s {
        Some(t) => Some(t.clone()),
        None => None,
    }
}

impl DownloadError {
    /// The message to print for this failure.
    pub fn message(&self) -> (r: String)
        ensures
            r@ == "no file extension could be determined"@,
    {
        "no file extension could be determined".to_owned()
    }
}

impl Episode {
    /// The episode's title, if it has one.
    pub fn title(&self) -> (r: Option<&str>)
        ensures
            match r {
                Some(t) => self@.title == Some(t@),
                None => self@.title is None,
            },
    {
        match &self.title {
            Some(t) => Some(t.as_str()),
            None => None,
        }
    }

    /// The URL of the episode's enclosure, if it has one.
    pub fn url(&self) -> (r: Option<&str>)
        ensures
            match r {
                Some(u) => self@.enclosure_url == Some(u@),
                None => self@.enclosure_url is None,
            },
    {
        match &self.enclosure_url {
            Some(u) => Some(u.as_str()),
            None => None,
        }
    }

    /// The extension to store the episode under, dot included.
    pub fn extension(&self) -> (r: Option<String>)
        ensures
            text_of(r) == extension_of(self@),
    {
        if let Some(mime) = &self.mime_type {
            if same_text(mime.as_str(), "audio/mpeg") {
                return Some(".mp3".to_owned());
            }
            if same_text(mime.as_str(), "audio/mp4") {
                return Some(".m4a".to_owned());
            }
            if same_text(mime.as_str(), "audio/ogg") {
                return Some(".ogg".to_owned());
            }
        }
        match &self.enclosure_url {
            Some(url) => find_extension(url.as_str()),
            None => None,
        }
    }

    /// Decides the transfer for this episode of the podcast titled
    /// `podcast_name`.
    pub fn download(&self, podcast_name: &str) -> (r: Result<Option<DownloadJob>, DownloadError>)
        ensures
            outcome_view(r) == download_of(self@, podcast_name@),
    {
        match (&self.enclosure_url, &self.title) {
            (Some(url), Some(title)) => match self.extension() {
                Some(ext) => {
                    let mut file_name: String = title.clone();
                    file_name.append(ext.as_str());
                    Ok(
                        Some(
                            DownloadJob {
                                url: url.clone(),
                                directory: podcast_name.to_owned(),
                                file_name: file_name,
                            },
                        ),
                    )
                },
                None => Err(DownloadError::NoExtension),
            },
            _ => Ok(None),
        }
    }

    /// Decides what a download pass does about this episode.
    pub fn plan(&self, podcast_name: &str, downloaded: &DownloadedSet) -> (action: EpisodeAction)
        ensures
            action@ == action_for(self@, podcast_name@, downloaded@),
    {
        match &self.title {
            None => EpisodeAction::Skip,
            Some(title) => {
                if downloaded.contains(title.as_str()) {
                    EpisodeAction::Skip
                } else {
                    match self.download(podcast_name) {
                        Ok(Some(job)) => EpisodeAction::Fetch(job),
                        Ok(None) => EpisodeAction::Skip,
                        Err(e) => EpisodeAction::Fail(e),
                    }
                }
            },
        }
    }
}

impl Podcast {
    /// The podcast's title.
    pub fn title(&self) -> (r: &str)
        ensures
            r@ == self@.title,
    {
        self.title.as_str()
    }

    /// The podcast's link.
    pub fn url(&self) -> (r: &str)
        ensures
            r@ == self@.link,
    {
        self.link.as_str()
    }

    /// A copy of the podcast's episodes, in the feed's order.
    pub fn episodes(&self) -> (r: Vec<Episode>)
        ensures
            episode_views(r@) == self@.episodes,
    {
        let mut result: Vec<Episode> = Vec::new();
        let mut i: usize = 0;
        while i < self.episodes.len()
            invariant
                i <= self.episodes.len(),
                result.len() == i,
                forall|k: int| 0 <= k < i ==> result[k]@ == self.episodes[k]@,
            decreases self.episodes.len() - i,
        {
            let ep = &self.episodes[i];
            result.push(
                Episode {
                    title: copy_text(&ep.title),
                    enclosure_url: copy_text(&ep.enclosure_url),
                    mime_type: copy_text(&ep.mime_type),
                },
            );
            i = i + 1;
        }
        assert(episode_views(result@) =~= self@.episodes);
        result
    }

    /// Plans a download pass over the first `count` episodes.
    pub fn download_first(&self, count: usize, downloaded: &DownloadedSet) -> (plan: Vec<EpisodeAction>)
        requires
            count <= self.episodes.len(),
        ensures
            plan.len() == count,
            forall|i: int|
                0 <= i < count ==> plan[i]@ == action_for(
                    #[trigger] self@.episodes[i],
                    self@.title,
                    downloaded@,
                ),
    {
        let mut plan: Vec<EpisodeAction> = Vec::new();
        let mut i: usize = 0;
        while i < count
            invariant
                i <= count <= self.episodes.len(),
                plan.len() == i,
                forall|k: int|
                    0 <= k < i ==> plan[k]@ == action_for(
                        #[trigger] self@.episodes[k],
                        self@.title,
                        downloaded@,
                    ),
            decreases count - i,
        {
            plan.push(self.episodes[i].plan(self.title.as_str(), downloaded));
            i = i + 1;
        }
        plan
    }

    /// Plans a download pass over every episode: one action per episode, in
    /// the feed's order.
    pub fn download(&self, downloaded: &DownloadedSet) -> (plan: Vec<EpisodeAction>)
        ensures
            plan.len() == self@.episodes.len(),
            forall|i: int|
                0 <= i < plan.len() ==> plan[i]@ == action_for(
                    #[trigger] self@.episodes[i],
                    self@.title,
                    downloaded@,
                ),
    {
        self.download_first(self.episodes.len(), downloaded)
    }

    /// Plans the download pass that follows a subscription or a refresh: over
    /// the feed's first episodes, as many as the download limit allows.
    pub fn auto_download(&self, config: &Config, downloaded: &DownloadedSet) -> (plan: Vec<EpisodeAction>)
        ensures
            plan.len() == download_count_of(config.auto_download_limit, self.episodes.len()),
            forall|i: int|
                0 <= i < plan.len() ==> plan[i]@ == action_for(
                    #[trigger] self@.episodes[i],
                    self@.title,
                    downloaded@,
                ),
    {
        self.download_first(config.download_count(self.episodes.len()), downloaded)
    }

    /// Plans a download pass over chosen episodes. A number `n` counts from
    /// the end of the feed: 1 is its last episode, and `n` is the episode at
    /// `len - n`.
    pub fn download_specific(&self, episode_numbers: &Vec<usize>, downloaded: &DownloadedSet) -> (plan: Vec<EpisodeAction>)
        requires
            forall|k: int|
                0 <= k < episode_numbers.len() ==> 1 <= #[trigger] episode_numbers[k]
                    <= self.episodes.len(),
        ensures
            plan.len() == episode_numbers.len(),
            forall|k: int|
                0 <= k < plan.len() ==> #[trigger] plan[k]@ == action_for(
                    self@.episodes[self@.episodes.len() - episode_numbers[k]],
                    self@.title,
                    downloaded@,
                ),
    {
        let mut plan: Vec<EpisodeAction> = Vec::new();
        let mut k: usize = 0;
        while k < episode_numbers.len()
            invariant
                k <= episode_numbers.len(),
                plan.len() == k,
                forall|j: int|
                    0 <= j < episode_numbers.len() ==> 1 <= #[trigger] episode_numbers[j]
                        <= self.episodes.len(),
                forall|j: int|
                    0 <= j < k ==> #[trigger] plan[j]@ == action_for(
                        self@.episodes[self@.episodes.len() - episode_numbers[j]],
                        self@.title,
                        downloaded@,
                    ),
            decreases episode_numbers.len() - k,
        {
            let index: usize = self.episodes.len() - episode_numbers[k];
            plan.push(self.episodes[index].plan(self.title.as_str(), downloaded));
            k = k + 1;
        }
        plan
    }
}

/// The three fixed extensions are extensions.
pub proof fn lemma_known_extensions()
    ensures
        is_extension(".mp3"@),
        is_extension(".m4a"@),
        is_extension(".ogg"@),
{
    reveal_strlit(".mp3");
    reveal_strlit(".m4a");
    reveal_strlit(".ogg");
}

/// Whatever extension an episode resolves to is a dot followed by characters
/// that hold no further dot.
pub proof fn lemma_extension_shape(ep: EpisodeView)
    ensures
        extension_of(ep) matches Some(ext) ==> is_extension(ext),
{
    lemma_known_extensions();
    if let Some(url) = ep.enclosure_url {
        lemma_url_extension_shape(url);
    }
}

/// An episode whose title is among the downloaded titles is never fetched.
pub proof fn lemma_downloaded_never_fetched(ep: EpisodeView, podcast: Seq<char>, downloaded: Set<Seq<char>>)
    requires
        ep.title matches Some(title) && downloaded.contains(title),
    ensures
        action_for(ep, podcast, downloaded) == ActionView::Skip,
{
}

/// A fetched episode is stored under a name whose stem is its title, so that
/// any later pass which finds that file in the directory skips the episode.
pub proof fn lemma_fetched_once(
    ep: EpisodeView,
    podcast: Seq<char>,
    downloaded: Set<Seq<char>>,
    later: Set<Seq<char>>,
)
    requires
        action_for(ep, podcast, downloaded) is Fetch,
        later.contains(stem(action_for(ep, podcast, downloaded)->Fetch_0.file_name)),
    ensures
        ep.title == Some(stem(action_for(ep, podcast, downloaded)->Fetch_0.file_name)),
        action_for(ep, podcast, later) == ActionView::Skip,
{
    lemma_extension_shape(ep);
    lemma_stem_of_file_name(ep.title->0, extension_of(ep)->0);
}

} // verus!
