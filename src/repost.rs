use crate::oauth::{base_url_of, instance_base_url, FlowError};
use crate::persistence::UserInfo;
use crate::util::{AccessToken, UserId};
use vstd::prelude::*;

verus! {

/// A chat message to repost, on behalf of a chat user.
pub struct RepostRequest {
    pub user_id: UserId,
    pub message_text: String,
    pub attachment_urls: Vec<String>,
}

/// The client context of one repost: the instance's API and the user's token.
pub struct ClientContext {
    pub base: String,
    pub access_token: AccessToken,
}

/// What became of one attachment.
pub enum AttachmentOutcome {
    /// Uploaded and processed; the media identifier.
    Ready(String),
    FetchFailed,
    UploadFailed,
    ProcessingFailed,
}

/// The post to submit.
pub struct NewPost {
    pub text: String,
    pub media_ids: Vec<String>,
}

/// What the pipeline asks for next.
pub enum RepostStep {
    /// Fetch, upload and process each of these attachments.
    Transfer(Vec<String>),
    /// Submit this post.
    Submit(NewPost),
    /// The repost is over, with the post's URL or the failure.
    Finished(Result<String, FlowError>),
}

/// The model of a `RepostStep`.
pub enum Decision {
    Fetch(Seq<Seq<char>>),
    Post(Seq<char>, Seq<Seq<char>>),
    Done(Result<Seq<char>, FlowError>),
}

pub open spec fn strings_view(v: Seq<String>) -> Seq<Seq<char>> {
    v.map_values(|s: String| s@)
}

impl View for RepostStep {
    type V = Decision;

    open spec fn view(&self) -> Decision {
        match self {
            RepostStep::Transfer(urls) => Decision::Fetch(strings_view(urls@)),
            RepostStep::Submit(post) => Decision::Post(post.text@, strings_view(post.media_ids@)),
            RepostStep::Finished(Ok(url)) => Decision::Done(Ok(url@)),
            RepostStep::Finished(Err(e)) => Decision::Done(Err(*e)),
        }
    }
}

/// The failure that an attachment outcome stands for, if any.
pub open spec fn outcome_error(o: AttachmentOutcome) -> Option<FlowError> {
    match o {
        AttachmentOutcome::Ready(_) => None,
        AttachmentOutcome::FetchFailed => Some(FlowError::AttachmentFetch),
        AttachmentOutcome::UploadFailed => Some(FlowError::MediaUpload),
        AttachmentOutcome::ProcessingFailed => Some(FlowError::Processing),
    }
}

/// The first failure among the outcomes, in the order they were observed.
pub open spec fn first_failure(os: Seq<AttachmentOutcome>) -> Option<FlowError>
    decreases os.len(),
{
    if os.len() == 0 {
        None
    } else if outcome_error(os[0]) is Some {
        outcome_error(os[0])
    } else {
        first_failure(os.drop_first())
    }
}

/// The media identifiers of the outcomes.
pub open spec fn media_ids_of(os: Seq<AttachmentOutcome>) -> Seq<Seq<char>> {
    os.map_values(|o: AttachmentOutcome| o->Ready_0@)
}

/// The first step of a repost of `text` with attachments `urls`: no
/// attachment means a text-only post at once.
pub open spec fn first_decision(text: Seq<char>, urls: Seq<Seq<char>>) -> Decision {
    if urls.len() == 0 {
        Decision::Post(text, Seq::empty())
    } else {
        Decision::Fetch(urls)
    }
}

/// The step after the transfers of `n` attachments came back as `os`: the
/// first failure ends the repost; a post goes out only when every
/// attachment produced a media identifier.
pub open spec fn transfers_decision(text: Seq<char>, n: nat, os: Seq<AttachmentOutcome>) -> Decision {
    if first_failure(os) is Some {
        Decision::Done(Err(first_failure(os)->Some_0))
    } else if os.len() == n {
        Decision::Post(text, media_ids_of(os))
    } else {
        Decision::Done(Err(FlowError::AttachmentFetch))
    }
}

/// One repost of a chat message, for a logged-in user.
pub struct RepostPipeline {
    client: ClientContext,
    text: String,
    attachment_urls: Vec<String>,
}

impl RepostPipeline {
    pub closed spec fn client_view(&self) -> ClientContext {
        self.client
    }

    pub closed spec fn text_view(&self) -> Seq<char> {
        self.text@
    }

    pub closed spec fn urls_view(&self) -> Seq<Seq<char>> {
        strings_view(self.attachment_urls@)
    }

    /// Starts a repost from the user's stored record: without one the user
    /// is not logged in; with one the client context is bound to the record's
    /// instance and token.
    pub fn start(request: RepostRequest, record: Option<UserInfo>) -> (r: Result<
        RepostPipeline,
        FlowError,
    >)
        ensures
            record is None ==> r == Err::<RepostPipeline, FlowError>(FlowError::NotLoggedIn),
            record is Some ==> r is Ok && r->Ok_0.client_view().base@ == base_url_of(
                record->Some_0.instance@,
            ) && r->Ok_0.client_view().access_token == record->Some_0.access_token
                && r->Ok_0.text_view() == request.message_text@ && r->Ok_0.urls_view()
                == strings_view(request.attachment_urls@),
    {
        match record {
            None => Err(FlowError::NotLoggedIn),
            Some(user) => {
                let base = instance_base_url(&user.instance);
                let RepostRequest { user_id: _, message_text, attachment_urls } = request;
                Ok(
                    RepostPipeline {
                        client: ClientContext { base, access_token: user.access_token },
                        text: message_text,
                        attachment_urls,
                    },
                )
            },
        }
    }

    /// The client context to run the network work with.
    pub fn client(&self) -> (r: &ClientContext)
        ensures
            *r == self.client_view(),
    {
        &self.client
    }

    /// The first step: transfer the attachments, or post the text alone when
    /// there are none.
    pub fn first_step(&self) -> (r: RepostStep)
        ensures
            r@ == first_decision(self.text_view(), self.urls_view()),
    {
        if self.attachment_urls.len() == 0 {
            let r = RepostStep::Submit(NewPost { text: self.text.clone(), media_ids: Vec::new() });
            proof {
                assert(strings_view(Seq::<String>::empty()) =~= Seq::<Seq<char>>::empty());
            }
            r
        } else {
            let mut urls: Vec<String> = Vec::new();
            let mut i: usize = 0;
            while i < self.attachment_urls.len()
                invariant
                    0 <= i <= self.attachment_urls@.len(),
                    urls@ =~= self.attachment_urls@.take(i as int),
                decreases self.attachment_urls@.len() - i,
            {
                urls.push(self.attachment_urls[i].clone());
                proof {
                    assert(self.attachment_urls@.take(i + 1) =~= self.attachment_urls@.take(
                        i as int,
                    ).push(self.attachment_urls@[i as int]));
                }
                i = i + 1;
            }
            proof {
                assert(self.attachment_urls@.take(i as int) =~= self.attachment_urls@);
            }
            RepostStep::Transfer(urls)
        }
    }

    /// The step after the transfers: fans in the outcomes, in the order they
    /// were observed.
    pub fn after_transfers(&self, outcomes: Vec<AttachmentOutcome>) -> (r: RepostStep)
        ensures
            r@ == transfers_decision(
                self.text_view(),
                self.urls_view().len(),
                outcomes@,
            ),
    {
        let mut ids: Vec<String> = Vec::new();
        let mut i: usize = 0;
        proof {
            assert(outcomes@.skip(0) =~= outcomes@);
        }
        while i < outcomes.len()
            invariant
                0 <= i <= outcomes@.len(),
                first_failure(outcomes@) == first_failure(outcomes@.skip(i as int)),
                ids@.len() == i,
                forall|j: int| 0 <= j < i ==> (#[trigger] ids@[j])@ == outcomes@[j]->Ready_0@,
            decreases outcomes@.len() - i,
        {
            proof {
                assert(outcomes@.skip(i as int)[0] == outcomes@[i as int]);
                assert(outcomes@.skip(i as int).drop_first() =~= outcomes@.skip(i + 1));
            }
            match &outcomes[i] {
                AttachmentOutcome::Ready(id) => {
                    ids.push(id.clone());
                },
                AttachmentOutcome::FetchFailed => {
                    return RepostStep::Finished(Err(FlowError::AttachmentFetch));
                },
                AttachmentOutcome::UploadFailed => {
                    return RepostStep::Finished(Err(FlowError::MediaUpload));
                },
                AttachmentOutcome::ProcessingFailed => {
                    return RepostStep::Finished(Err(FlowError::Processing));
                },
            }
            i = i + 1;
        }
        proof {
            assert(outcomes@.skip(i as int).len() == 0);
            assert(strings_view(ids@) =~= media_ids_of(outcomes@));
        }
        if outcomes.len() == self.attachment_urls.len() {
            RepostStep::Submit(NewPost { text: self.text.clone(), media_ids: ids })
        } else {
            RepostStep::Finished(Err(FlowError::AttachmentFetch))
        }
    }
}

/// The last step: the submitted post's URL, or `PostCreation` when the
/// submission failed.
pub fn finish_post(posted: Result<String, ()>) -> (r: Result<String, FlowError>)
    ensures
        posted is Ok ==> r is Ok && r->Ok_0@ == posted->Ok_0@,
        posted is Err ==> r == Err::<String, FlowError>(FlowError::PostCreation),
{
    match posted {
        Ok(url) => Ok(url),
        Err(()) => Err(FlowError::PostCreation),
    }
}

/// A repost without attachments goes straight to a post of the text alone,
/// with no media identifier.
pub proof fn lemma_no_attachments_posts_text(text: Seq<char>, urls: Seq<Seq<char>>)
    requires
        urls.len() == 0,
    ensures
        first_decision(text, urls) == Decision::Post(text, Seq::<Seq<char>>::empty()),
{
}

/// When any attachment fails, the repost fails with the first failure
/// observed, and no post is submitted.
pub proof fn lemma_failed_attachment_blocks_post(
    text: Seq<char>,
    n: nat,
    os: Seq<AttachmentOutcome>,
    i: int,
)
    requires
        0 <= i < os.len(),
        outcome_error(os[i]) is Some,
    ensures
        first_failure(os) is Some,
        transfers_decision(text, n, os) == Decision::Done(Err(first_failure(os)->Some_0)),
        transfers_decision(text, n, os) !is Post,
    decreases os.len(),
{
    if outcome_error(os[0]) is None {
        assert(os.drop_first()[i - 1] == os[i]);
        lemma_failed_attachment_blocks_post(text, n, os.drop_first(), i - 1);
    }
}

} // verus!
