//! The upload of one recording: the media first, in one piece or in parts,
//! then its metadata, so the website never lists a video without a file
//! behind it.
use vstd::prelude::*;

use crate::cloud;
use crate::cloud::{
    cloud_metadata, content_type, CloudClient, CloudError, Method, Request, PROGRESS_STEP_BYTES,
    PUT_ATTEMPTS,
};
use crate::domain::LibraryEntry;
use crate::json;
use crate::json::{add_item, list, put, record, Field, Json, JsonView};
use crate::text;
use crate::text::{push_decimal, removed};

verus! {

/// How many parts of `part_bytes` a file of `size` bytes has.
pub open spec fn part_count(size: u64, part_bytes: u64) -> int {
    (size + part_bytes - 1) / part_bytes as int
}

/// Where a part starts.
pub open spec fn part_start(index: int, part_bytes: u64) -> int {
    index * part_bytes
}

/// Where a part ends.
pub open spec fn part_end(index: int, size: u64, part_bytes: u64) -> int {
    if (index + 1) * part_bytes < size {
        (index + 1) * part_bytes
    } else {
        size as int
    }
}

proof fn lemma_part_count(size: u64, part_bytes: u64)
    requires
        part_bytes > 0,
        size > 0,
    ensures
        part_count(size, part_bytes) == (size - 1) / part_bytes as int + 1,
        part_count(size, part_bytes) >= 1,
        (part_count(size, part_bytes) - 1) * part_bytes < size <= part_count(size, part_bytes)
            * part_bytes,
{
    let size = size as int;
    let part = part_bytes as int;
    let count = (size + part - 1) / part;
    assert(count == (size - 1) / part + 1 && count >= 1 && (count - 1) * part < size <= count
        * part) by (nonlinear_arith)
        requires
            part > 0,
            size > 0,
            count == (size + part - 1) / part,
    ;
}

proof fn lemma_part_inside(index: int, size: u64, part_bytes: u64)
    requires
        part_bytes > 0,
        size > 0,
        0 <= index < part_count(size, part_bytes),
    ensures
        0 <= part_start(index, part_bytes) < part_end(index, size, part_bytes) <= size,
        part_end(index, size, part_bytes) - part_start(index, part_bytes) <= part_bytes,
        index + 1 < part_count(size, part_bytes) ==> part_end(index, size, part_bytes)
            == part_start(index + 1, part_bytes),
        index + 1 == part_count(size, part_bytes) ==> part_end(index, size, part_bytes) == size,
{
    lemma_part_count(size, part_bytes);
    let count = part_count(size, part_bytes);
    let part = part_bytes as int;
    assert(0 <= index * part && (index + 1) * part == index * part + part) by (nonlinear_arith)
        requires
            0 <= index,
            part > 0,
    ;
    assert(index * part <= (count - 1) * part) by (nonlinear_arith)
        requires
            index <= count - 1,
            part > 0,
    ;
    if index + 1 < count {
        assert((index + 1) * part <= (count - 1) * part) by (nonlinear_arith)
            requires
                index + 1 <= count - 1,
                part > 0,
        ;
    }
}

/// The parts of a file cover it without gaps or overlaps: the first starts at
/// its beginning, each next one where the last ended, and the last ends where
/// the file does. None is empty or larger than a part.
pub proof fn parts_cover_the_file(size: u64, part_bytes: u64)
    requires
        part_bytes > 0,
        size > 0,
    ensures
        part_count(size, part_bytes) >= 1,
        part_start(0, part_bytes) == 0,
        forall|k: int|
            #![trigger part_end(k, size, part_bytes)]
            0 <= k < part_count(size, part_bytes) ==> {
                &&& 0 < part_end(k, size, part_bytes) - part_start(k, part_bytes) <= part_bytes
                &&& k + 1 < part_count(size, part_bytes) ==> part_end(k, size, part_bytes)
                    == part_start(k + 1, part_bytes)
                &&& k + 1 == part_count(size, part_bytes) ==> part_end(k, size, part_bytes) == size
            },
{
    lemma_part_count(size, part_bytes);
    assert forall|k: int|
        #![trigger part_end(k, size, part_bytes)]
        0 <= k < part_count(size, part_bytes) implies {
        &&& 0 < part_end(k, size, part_bytes) - part_start(k, part_bytes) <= part_bytes
        &&& k + 1 < part_count(size, part_bytes) ==> part_end(k, size, part_bytes) == part_start(
            k + 1,
            part_bytes,
        )
        &&& k + 1 == part_count(size, part_bytes) ==> part_end(k, size, part_bytes) == size
    } by {
        lemma_part_inside(k, size, part_bytes);
    }
}

/// Which part of the media is being sent, and what came back for the ones
/// before it.
pub struct Putting {
    pub urls: Vec<String>,
    pub etags: Vec<String>,
    /// Whether the file goes up in parts.
    pub parts: bool,
    pub index: usize,
    pub attempt: u32,
}

pub enum TransferStage {
    /// The URL for the whole file was asked for.
    Signing,
    /// The URLs of the parts were asked for.
    SigningParts,
    Putting(Putting),
    Completing,
    Registering,
    Housekeeping,
    Over,
}

/// What came of the last step.
pub enum TransferEvent {
    Signed(Result<String, CloudError>),
    SignedParts(Result<Vec<String>, CloudError>),
    /// The bucket's answer to a PUT: the ETag it came with.
    Sent(Result<Option<String>, CloudError>),
    /// The media file could not be read.
    FileFailed(String),
    Completed(Result<(), CloudError>),
    Registered(Result<(), CloudError>),
    /// The housekeeper was run; its outcome is advisory.
    Housekept,
}

pub enum TransferStep {
    Call(Request),
    /// PUT `len` bytes of the media from `offset` to a signed bucket URL.
    Send { url: String, offset: u64, len: u64, content_type: &'static str },
    /// All media is up: report `sent` bytes of `total`, then post the metadata.
    Register { sent: u64, total: u64 },
    Finish(Result<(), CloudError>),
}

/// The upload of one recording.
pub struct Transfer {
    pub client: CloudClient,
    pub key: String,
    pub size: u64,
    pub stage: TransferStage,
}

impl Transfer {
    pub open spec fn wf(self) -> bool {
        &&& self.client.wf()
        &&& self.stage matches TransferStage::Putting(putting) ==> self.putting_wf(putting)
        &&& self.stage is SigningParts ==> self.size >= self.client.part_bytes
    }

    pub open spec fn putting_wf(self, putting: Putting) -> bool {
        &&& putting.index < putting.urls@.len()
        &&& 1 <= putting.attempt <= PUT_ATTEMPTS
        &&& putting.etags@.len() == putting.index
        &&& putting.parts ==> self.size > 0 && putting.urls@.len() == part_count(
            self.size,
            self.client.part_bytes,
        )
        &&& !putting.parts ==> putting.urls@.len() == 1
    }

    /// The bytes that are sent next: one part, or the whole file.
    pub open spec fn range(self, putting: Putting) -> (int, int) {
        if putting.parts {
            (
                part_start(putting.index as int, self.client.part_bytes),
                part_end(putting.index as int, self.size, self.client.part_bytes),
            )
        } else {
            (0, self.size as int)
        }
    }

    /// The step sends the bytes of the part that `putting` is at.
    pub open spec fn sends(self, putting: Putting, step: TransferStep) -> bool {
        step matches TransferStep::Send { url, offset, len, content_type: kind } && {
            &&& url == putting.urls@[putting.index as int]
            &&& offset == self.range(putting).0
            &&& offset + len == self.range(putting).1
            &&& kind@ == (if text::has_suffix(self.key@, ".png"@) {
                "image/png"@
            } else {
                "video/mp4"@
            })
        }
    }

    /// What is reported once `sent` bytes of the range that `putting` is at
    /// are on their way: how much of the whole file that makes.
    pub open spec fn reported(self, putting: Putting, sent: u64) -> (int, int) {
        (self.range(putting).0 + sent, self.size as int)
    }

    /// The step reports the whole file as sent before the metadata is posted.
    pub open spec fn reports_all(self, step: TransferStep) -> bool {
        step == (TransferStep::Register { sent: self.size, total: self.size })
    }

    /// Where the range that `putting` is at starts.
    fn offset(&self, putting: &Putting) -> (offset: u64)
        requires
            self.wf(),
            self.putting_wf(*putting),
        ensures
            offset == self.range(*putting).0,
            self.range(*putting).0 <= self.range(*putting).1 <= self.size,
    {
        if putting.parts {
            proof {
                lemma_part_inside(putting.index as int, self.size, self.client.part_bytes);
                assert(putting.index * self.client.part_bytes <= u64::MAX);
            }
            putting.index as u64 * self.client.part_bytes
        } else {
            0
        }
    }

    fn send_step(&self, putting: &Putting) -> (step: TransferStep)
        requires
            self.wf(),
            self.putting_wf(*putting),
        ensures
            self.sends(*putting, step),
    {
        let url = putting.urls[putting.index].clone();
        let kind = content_type(&self.key);
        let offset: u64 = self.offset(putting);
        if putting.parts {
            proof {
                assert((putting.index + 1) * self.client.part_bytes == putting.index
                    * self.client.part_bytes + self.client.part_bytes) by (nonlinear_arith);
            }
            let rest: u64 = self.size - offset;
            let len: u64 = if self.client.part_bytes < rest {
                self.client.part_bytes
            } else {
                rest
            };
            TransferStep::Send { url, offset, len, content_type: kind }
        } else {
            TransferStep::Send { url, offset, len: self.size, content_type: kind }
        }
    }

    fn call(&self, suffix: &str, body: Option<Json>) -> (request: Request)
        ensures
            self.client.calls(
                request,
                Method::Post,
                self.client.guild_path(suffix@),
                match body {
                    Some(json) => Some(json.model()),
                    None => None,
                },
            ),
    {
        Request {
            method: Method::Post,
            url: self.client.guild_url(suffix),
            authorization: self.client.auth.clone(),
            body,
        }
    }

    /// The first call: a small file asks for one URL, another for one for each
    /// of its parts.
    pub open spec fn begins(
        client: CloudClient,
        key: Seq<char>,
        size: u64,
        stage: TransferStage,
        step: TransferStep,
    ) -> bool {
        if size < client.part_bytes {
            &&& stage is Signing
            &&& step matches TransferStep::Call(request) && client.calls(
                request,
                Method::Post,
                client.guild_path("/upload"@),
                Some(
                    JsonView::Record(
                        seq![
                            ("key"@, JsonView::Text(key)),
                            ("bytes"@, JsonView::Int(size as int)),
                        ],
                    ),
                ),
            )
        } else {
            &&& stage is SigningParts
            &&& step matches TransferStep::Call(request) && client.calls(
                request,
                Method::Post,
                client.guild_path("/create-multipart-upload"@),
                Some(
                    JsonView::Record(
                        seq![
                            ("key"@, JsonView::Text(key)),
                            ("total"@, JsonView::Int(size as int)),
                            ("part"@, JsonView::Int(client.part_bytes as int)),
                        ],
                    ),
                ),
            )
        }
    }

    /// Start the upload of `size` bytes under `key`: small files go up in one
    /// piece, others in parts.
    pub fn start(client: CloudClient, key: String, size: u64) -> (started: (
        Transfer,
        TransferStep,
    ))
        requires
            client.wf(),
        ensures
            started.0.wf(),
            started.0.client == client,
            started.0.key == key,
            started.0.size == size,
            Self::begins(client, key@, size, started.0.stage, started.1),
    {
        let mut fields: Vec<Field> = Vec::new();
        put(&mut fields, "key", Json::Text(key.clone()));
        if size < client.part_bytes {
            put(&mut fields, "bytes", Json::Count(size));
            assert(json::field_models(fields@) =~= seq![
                ("key"@, JsonView::Text(key@)),
                ("bytes"@, JsonView::Int(size as int)),
            ]);
            let transfer = Transfer { client, key, size, stage: TransferStage::Signing };
            let request = transfer.call("/upload", Some(record(fields)));
            (transfer, TransferStep::Call(request))
        } else {
            put(&mut fields, "total", Json::Count(size));
            put(&mut fields, "part", Json::Count(client.part_bytes));
            assert(json::field_models(fields@) =~= seq![
                ("key"@, JsonView::Text(key@)),
                ("total"@, JsonView::Int(size as int)),
                ("part"@, JsonView::Int(client.part_bytes as int)),
            ]);
            let transfer = Transfer { client, key, size, stage: TransferStage::SigningParts };
            let request = transfer.call("/create-multipart-upload", Some(record(fields)));
            (transfer, TransferStep::Call(request))
        }
    }

    /// Whether `event` answers the step of this stage.
    pub open spec fn expects(self, event: TransferEvent) -> bool {
        match self.stage {
            TransferStage::Signing => event is Signed,
            TransferStage::SigningParts => event is SignedParts,
            TransferStage::Putting(_) => event is Sent || event is FileFailed,
            TransferStage::Completing => event is Completed,
            TransferStage::Registering => event is Registered,
            TransferStage::Housekeeping => event is Housekept,
            TransferStage::Over => false,
        }
    }

    /// The upload ends here with `outcome`.
    pub open spec fn ends(
        next: Transfer,
        step: TransferStep,
        outcome: Result<(), CloudError>,
    ) -> bool {
        next.stage is Over && step == TransferStep::Finish(outcome)
    }

    /// What follows from `event`: the next stage and the next step.
    pub open spec fn follows(self, event: TransferEvent, next: Transfer, step: TransferStep) -> bool {
        match (self.stage, event) {
            (TransferStage::Signing, TransferEvent::Signed(Ok(url))) => {
                next.stage matches TransferStage::Putting(putting) && {
                    &&& putting.urls@ == seq![url]
                    &&& putting.etags@.len() == 0
                    &&& !putting.parts
                    &&& putting.index == 0
                    &&& putting.attempt == 1
                    &&& self.sends(putting, step)
                }
            },
            (TransferStage::Signing, TransferEvent::Signed(Err(error))) => Self::ends(
                next,
                step,
                Err(error),
            ),
            (TransferStage::SigningParts, TransferEvent::SignedParts(Ok(urls))) => {
                let count = part_count(self.size, self.client.part_bytes);
                if urls@.len() == count {
                    next.stage matches TransferStage::Putting(putting) && {
                        &&& putting.urls == urls
                        &&& putting.etags@.len() == 0
                        &&& putting.parts
                        &&& putting.index == 0
                        &&& putting.attempt == 1
                        &&& self.sends(putting, step)
                    }
                } else {
                    &&& next.stage is Over
                    &&& step matches TransferStep::Finish(Err(CloudError::InvalidResponse(error)))
                        && error@ == "expected "@ + text::decimal(count as nat)
                        + " signed part URLs, got "@ + text::decimal(urls@.len())
                }
            },
            (TransferStage::SigningParts, TransferEvent::SignedParts(Err(error))) => Self::ends(
                next,
                step,
                Err(error),
            ),
            (TransferStage::Putting(putting), TransferEvent::Sent(Ok(etag))) => if !putting.parts {
                next.stage is Registering && self.reports_all(step)
            } else {
                match etag {
                    None => {
                        &&& next.stage is Over
                        &&& step matches TransferStep::Finish(
                            Err(CloudError::InvalidResponse(error)),
                        ) && error@ == "a part upload returned no ETag"@
                    },
                    Some(tag) => if putting.index + 1 < putting.urls@.len() {
                        next.stage matches TransferStage::Putting(after) && {
                            &&& after.urls == putting.urls
                            &&& text::texts(after.etags@) == text::texts(putting.etags@).push(
                                text::without_char(tag@, '"'),
                            )
                            &&& after.parts
                            &&& after.index == putting.index + 1
                            &&& after.attempt == 1
                            &&& self.sends(after, step)
                        }
                    } else {
                        &&& next.stage is Completing
                        &&& step matches TransferStep::Call(request) && self.client.calls(
                            request,
                            Method::Post,
                            self.client.guild_path("/complete-multipart-upload"@),
                            Some(
                                JsonView::Record(
                                    seq![
                                        ("key"@, JsonView::Text(self.key@)),
                                        (
                                            "etags"@,
                                            JsonView::List(
                                                text::texts(putting.etags@).push(
                                                    text::without_char(tag@, '"'),
                                                ).map_values(|t: Seq<char>| JsonView::Text(t)),
                                            ),
                                        ),
                                    ],
                                ),
                            ),
                        )
                    },
                }
            },
            (TransferStage::Putting(putting), TransferEvent::Sent(Err(error))) => if putting.attempt
                < PUT_ATTEMPTS {
                &&& next.stage == TransferStage::Putting(
                    Putting { attempt: (putting.attempt + 1) as u32, ..putting },
                )
                &&& self.sends(putting, step)
            } else {
                Self::ends(next, step, Err(error))
            },
            (TransferStage::Putting(_), TransferEvent::FileFailed(error)) => Self::ends(
                next,
                step,
                Err(CloudError::Io(error)),
            ),
            (TransferStage::Completing, TransferEvent::Completed(Ok(_))) => {
                next.stage is Registering && self.reports_all(step)
            },
            (TransferStage::Completing, TransferEvent::Completed(Err(error))) => Self::ends(
                next,
                step,
                Err(error),
            ),
            (TransferStage::Registering, TransferEvent::Registered(Ok(_))) => {
                &&& next.stage is Housekeeping
                &&& step matches TransferStep::Call(request) && self.client.calls(
                    request,
                    Method::Post,
                    self.client.guild_path("/housekeeper"@),
                    None,
                )
            },
            (TransferStage::Registering, TransferEvent::Registered(Err(error))) => Self::ends(
                next,
                step,
                Err(error),
            ),
            (TransferStage::Housekeeping, TransferEvent::Housekept) => Self::ends(
                next,
                step,
                Ok(()),
            ),
            _ => false,
        }
    }
}

/// The ETags of the parts, as JSON.
fn etag_list(etags: &Vec<String>) -> (items: Vec<Json>)
    ensures
        json::models(items@) == text::texts(etags@).map_values(|t: Seq<char>| JsonView::Text(t)),
{
    let ghost all = text::texts(etags@).map_values(|t: Seq<char>| JsonView::Text(t));
    let mut items: Vec<Json> = Vec::new();
    let mut i: usize = 0;
    assert(json::models(items@) =~= all.take(0));
    while i < etags.len()
        invariant
            i <= etags@.len(),
            all == text::texts(etags@).map_values(|t: Seq<char>| JsonView::Text(t)),
            json::models(items@) == all.take(i as int),
        decreases etags@.len() - i,
    {
        add_item(&mut items, Json::Text(etags[i].clone()));
        i = i + 1;
        assert(all.take(i as int) =~= all.take(i - 1).push(all[i - 1]));
    }
    assert(all.take(i as int) =~= all);
    items
}

impl Transfer {
    fn at(self, stage: TransferStage) -> (next: Transfer)
        ensures
            next == (Transfer { stage, ..self }),
    {
        Transfer { client: self.client, key: self.key, size: self.size, stage }
    }

    fn finished(self, outcome: Result<(), CloudError>) -> (result: (Transfer, TransferStep))
        ensures
            result.0 == (Transfer { stage: TransferStage::Over, ..self }),
            result.1 == TransferStep::Finish(outcome),
    {
        (self.at(TransferStage::Over), TransferStep::Finish(outcome))
    }

    fn registering(self) -> (result: (Transfer, TransferStep))
        ensures
            result.0 == (Transfer { stage: TransferStage::Registering, ..self }),
            self.reports_all(result.1),
    {
        let size: u64 = self.size;
        (
            self.at(TransferStage::Registering),
            TransferStep::Register { sent: size, total: size },
        )
    }

    /// Send the part that `putting` is at.
    fn sending(self, putting: Putting) -> (result: (Transfer, TransferStep))
        requires
            self.client.wf(),
            self.putting_wf(putting),
        ensures
            result.0.wf(),
            result.0 == (Transfer { stage: TransferStage::Putting(putting), ..self }),
            self.sends(putting, result.1),
    {
        let bare = self.at(TransferStage::Over);
        let step = bare.send_step(&putting);
        (bare.at(TransferStage::Putting(putting)), step)
    }

    fn signed_parts(self, urls: Vec<String>) -> (result: (Transfer, TransferStep))
        requires
            self.wf(),
            self.stage is SigningParts,
        ensures
            result.0.wf(),
            result.0 == (Transfer { stage: result.0.stage, ..self }),
            self.follows(TransferEvent::SignedParts(Ok(urls)), result.0, result.1),
    {
        proof {
            lemma_part_count(self.size, self.client.part_bytes);
        }
        let expected: u64 = (self.size - 1) / self.client.part_bytes + 1;
        if urls.len() as u64 != expected {
            let mut error = "expected ".to_owned();
            push_decimal(&mut error, expected);
            error.append(" signed part URLs, got ");
            push_decimal(&mut error, urls.len() as u64);
            return self.finished(Err(CloudError::InvalidResponse(error)));
        }
        self.sending(Putting { urls, etags: Vec::new(), parts: true, index: 0, attempt: 1 })
    }

    /// Take in what came of the last step and say what to do next.
    pub fn next(self, event: TransferEvent) -> (result: (Transfer, TransferStep))
        requires
            self.wf(),
            self.expects(event),
        ensures
            result.0.wf(),
            result.0 == (Transfer { stage: result.0.stage, ..self }),
            self.follows(event, result.0, result.1),
    {
        let Transfer { client, key, size, stage } = self;
        let bare = Transfer { client, key, size, stage: TransferStage::Over };
        match (stage, event) {
            (TransferStage::Signing, TransferEvent::Signed(Ok(url))) => {
                let mut urls: Vec<String> = Vec::new();
                urls.push(url);
                assert(urls@ =~= seq![url]);
                bare.sending(Putting { urls, etags: Vec::new(), parts: false, index: 0, attempt: 1 })
            },
            (TransferStage::SigningParts, TransferEvent::SignedParts(Ok(urls))) => {
                bare.at(TransferStage::SigningParts).signed_parts(urls)
            },
            (TransferStage::Signing, TransferEvent::Signed(Err(error))) => bare.finished(
                Err(error),
            ),
            (TransferStage::SigningParts, TransferEvent::SignedParts(Err(error))) => bare.finished(
                Err(error),
            ),
            (TransferStage::Putting(putting), TransferEvent::Sent(Ok(etag))) => {
                if !putting.parts {
                    bare.registering()
                } else {
                    match etag {
                        None => bare.finished(
                            Err(
                                CloudError::InvalidResponse(
                                    "a part upload returned no ETag".to_owned(),
                                ),
                            ),
                        ),
                        Some(tag) => Transfer::after_part(bare, putting, tag),
                    }
                }
            },
            (TransferStage::Putting(putting), TransferEvent::Sent(Err(error))) => {
                if putting.attempt < PUT_ATTEMPTS {
                    let Putting { urls, etags, parts, index, attempt } = putting;
                    bare.sending(Putting { urls, etags, parts, index, attempt: attempt + 1 })
                } else {
                    bare.finished(Err(error))
                }
            },
            (TransferStage::Putting(_), TransferEvent::FileFailed(error)) => bare.finished(
                Err(CloudError::Io(error)),
            ),
            (TransferStage::Completing, TransferEvent::Completed(Ok(_))) => bare.registering(),
            (TransferStage::Completing, TransferEvent::Completed(Err(error))) => bare.finished(
                Err(error),
            ),
            (TransferStage::Registering, TransferEvent::Registered(Ok(_))) => {
                let request = bare.call("/housekeeper", None);
                (bare.at(TransferStage::Housekeeping), TransferStep::Call(request))
            },
            (TransferStage::Registering, TransferEvent::Registered(Err(error))) => bare.finished(
                Err(error),
            ),
            (TransferStage::Housekeeping, TransferEvent::Housekept) => bare.finished(Ok(())),
            (_, _) => {
                assert(false);
                bare.finished(Ok(()))
            },
        }
    }

    fn after_part(bare: Transfer, putting: Putting, tag: String) -> (result: (
        Transfer,
        TransferStep,
    ))
        requires
            bare.client.wf(),
            bare.stage is Over,
            bare.putting_wf(putting),
            putting.parts,
        ensures
            result.0.wf(),
            result.0 == (Transfer { stage: result.0.stage, ..bare }),
            (Transfer { stage: TransferStage::Putting(putting), ..bare }).follows(
                TransferEvent::Sent(Ok(Some(tag))),
                result.0,
                result.1,
            ),
    {
        let Putting { urls, etags, parts, index, attempt } = putting;
        let ghost before = text::texts(etags@);
        let mut etags = etags;
        etags.push(removed(&tag, '"'));
        assert(text::texts(etags@) =~= before.push(text::without_char(tag@, '"')));
        if index < urls.len() - 1 {
            bare.sending(Putting { urls, etags, parts, index: index + 1, attempt: 1 })
        } else {
            let mut fields: Vec<Field> = Vec::new();
            put(&mut fields, "key", Json::Text(bare.key.clone()));
            put(&mut fields, "etags", list(etag_list(&etags)));
            assert(json::field_models(fields@) =~= seq![
                ("key"@, JsonView::Text(bare.key@)),
                (
                    "etags"@,
                    JsonView::List(
                        text::texts(etags@).map_values(|t: Seq<char>| JsonView::Text(t)),
                    ),
                ),
            ]);
            let request = bare.call("/complete-multipart-upload", Some(record(fields)));
            (bare.at(TransferStage::Completing), TransferStep::Call(request))
        }
    }

    /// The progress to report while a range is being sent, of which `sent`
    /// bytes are on their way: bytes of the whole file, and its size.
    pub fn report(&self, sent: u64) -> (report: (u64, u64))
        requires
            self.wf(),
            self.stage matches TransferStage::Putting(putting) && sent <= self.range(putting).1
                - self.range(putting).0,
        ensures
            self.stage matches TransferStage::Putting(putting) && (report.0 as int, report.1 as int)
                == self.reported(putting, sent),
            report.0 <= report.1,
    {
        match &self.stage {
            TransferStage::Putting(putting) => (self.offset(putting) + sent, self.size),
            _ => {
                assert(false);
                (sent, self.size)
            },
        }
    }

    /// The call that registers the uploaded video with its metadata.
    pub fn registration(&self, entry: &LibraryEntry) -> (request: Request)
        requires
            cloud::dates_fit(*entry),
        ensures
            self.client.calls(
                request,
                Method::Post,
                self.client.guild_path("/video"@),
                Some(JsonView::Record(cloud::metadata_fields(*entry, self.size))),
            ),
    {
        self.call("/video", Some(cloud_metadata(entry, self.size)))
    }
}

/// Counts the bytes of one range as they are read, and says when to report.
#[derive(Clone, Copy, Debug, PartialEq, Eq, Structural)]
pub struct SentBytes {
    pub sent: u64,
    pub reported: u64,
}

impl SentBytes {
    pub open spec fn wf(self) -> bool {
        self.reported <= self.sent
    }

    pub fn new() -> (count: Self)
        ensures
            count.wf(),
            count == (SentBytes { sent: 0, reported: 0 }),
    {
        SentBytes { sent: 0, reported: 0 }
    }

    /// `read` more bytes are on their way.
    pub open spec fn advances(self, read: u64, after: Self, report: Option<u64>) -> bool {
        &&& after.sent == self.sent + read
        &&& report is Some <==> read == 0 || after.sent - self.reported >= PROGRESS_STEP_BYTES
        &&& report matches Some(sent) ==> sent == after.sent
        &&& after.reported == (if report is Some {
            after.sent
        } else {
            self.reported
        })
    }

    /// `read` more bytes were read; none means the range is at its end. A
    /// report is due after every step's worth of bytes and at the end.
    pub fn advance(&mut self, read: u64) -> (report: Option<u64>)
        requires
            old(self).wf(),
            old(self).sent + read <= u64::MAX,
        ensures
            final(self).wf(),
            old(self).advances(read, *final(self), report),
    {
        self.sent = self.sent + read;
        if self.sent - self.reported >= PROGRESS_STEP_BYTES || read == 0 {
            self.reported = self.sent;
            Some(self.sent)
        } else {
            None
        }
    }
}

/// The media comes first: metadata is only posted once every byte was
/// accepted, which is when the last part was sent and, for parts, put
/// together.
pub proof fn metadata_follows_the_media(
    transfer: Transfer,
    event: TransferEvent,
    next: Transfer,
    step: TransferStep,
)
    requires
        transfer.follows(event, next, step),
        step is Register,
    ensures
        match transfer.stage {
            TransferStage::Putting(putting) => !putting.parts && event matches TransferEvent::Sent(
                Ok(_),
            ),
            TransferStage::Completing => event matches TransferEvent::Completed(Ok(_)),
            _ => false,
        },
{
}

/// An upload succeeds only through its metadata: the one step that ends well
/// comes after the video was registered.
pub proof fn only_registered_uploads_succeed(
    transfer: Transfer,
    event: TransferEvent,
    next: Transfer,
    step: TransferStep,
)
    requires
        transfer.follows(event, next, step),
        step == TransferStep::Finish(Ok(())),
    ensures
        transfer.stage is Housekeeping,
{
}

/// The steps of an upload in order, each with the stage it left the upload in:
/// the first asks for URLs, and each other one follows from the event that the
/// one before it brought.
pub open spec fn is_upload(run: Seq<(Transfer, TransferStep)>, events: Seq<TransferEvent>) -> bool {
    &&& run.len() == events.len() + 1
    &&& run[0].0.stage is Signing || run[0].0.stage is SigningParts
    &&& forall|i: int, j: int|
        #![trigger run[i], run[j]]
        0 <= i < run.len() && j == i + 1 && j < run.len() ==> {
            &&& run[i].0.follows(events[i], run[j].0, run[j].1)
            &&& run[j].0 == (Transfer { stage: run[j].0.stage, ..run[i].0 })
        }
}

/// An upload that succeeds has reported its whole file as sent, and reports
/// nothing after that: the last report is the size of the file, twice.
pub proof fn the_last_report_is_the_whole_file(
    run: Seq<(Transfer, TransferStep)>,
    events: Seq<TransferEvent>,
)
    requires
        is_upload(run, events),
        run.last().1 == TransferStep::Finish(Ok(())),
        events.len() > 0,
    ensures
        exists|k: int|
            0 < k < run.len() && run.last().0.reports_all((#[trigger] run[k]).1) && forall|j: int|
                k < j < run.len() ==> !((#[trigger] run[j]).1 is Send) && !(run[j].1 is Register),
{
    let end = run.len() - 1;
    assert(run[end - 1].0.follows(events[end - 1], run[end].0, run[end].1));
    assert(run[end - 1].0.stage is Housekeeping);
    assert(run[end - 2].0.follows(events[end - 2], run[end - 1].0, run[end - 1].1));
    assert(run[end - 2].0.stage is Registering);
    assert(run[end - 3].0.follows(events[end - 3], run[end - 2].0, run[end - 2].1));
    assert(run.last().0.reports_all(run[end - 2].1));
    assert forall|j: int| end - 2 < j < run.len() implies !((#[trigger] run[j]).1 is Send) && !(
    run[j].1 is Register) by {
        assert(j == end || j == end - 1);
    }
}

impl Transfer {
    /// How many steps an upload can still take.
    pub open spec fn steps_left(self) -> int {
        match self.stage {
            TransferStage::Signing => 4 + PUT_ATTEMPTS,
            TransferStage::SigningParts => 4 + part_count(self.size, self.client.part_bytes)
                * PUT_ATTEMPTS,
            TransferStage::Putting(putting) => 4 + (putting.urls@.len() - putting.index)
                * PUT_ATTEMPTS - putting.attempt,
            TransferStage::Completing => 3,
            TransferStage::Registering => 2,
            TransferStage::Housekeeping => 1,
            TransferStage::Over => 0,
        }
    }
}

/// An upload comes to an end, whatever the network answers: every step brings
/// it closer.
pub proof fn uploads_end(
    transfer: Transfer,
    event: TransferEvent,
    next: Transfer,
    step: TransferStep,
)
    requires
        transfer.wf(),
        transfer.follows(event, next, step),
    ensures
        0 <= next.steps_left() < transfer.steps_left(),
{
    if transfer.stage is SigningParts {
        lemma_part_count(transfer.size, transfer.client.part_bytes);
    }
}

/// Sending a range is tried a bounded number of times; the last error is the
/// one that is reported.
pub proof fn failed_sends_are_repeated(
    transfer: Transfer,
    putting: Putting,
    error: CloudError,
    next: Transfer,
    step: TransferStep,
)
    requires
        transfer.wf(),
        transfer.stage == TransferStage::Putting(putting),
        transfer.follows(TransferEvent::Sent(Err(error)), next, step),
    ensures
        putting.attempt < PUT_ATTEMPTS ==> transfer.sends(putting, step),
        putting.attempt >= PUT_ATTEMPTS ==> step == TransferStep::Finish(Err(error)),
{
}

/// Parts are put together only once every one of them was sent: there is one
/// tag for each.
pub proof fn parts_are_put_together_whole(
    transfer: Transfer,
    putting: Putting,
    tag: String,
    next: Transfer,
    step: TransferStep,
)
    requires
        transfer.wf(),
        transfer.stage == TransferStage::Putting(putting),
        putting.parts,
        transfer.follows(TransferEvent::Sent(Ok(Some(tag))), next, step),
        next.stage is Completing,
    ensures
        text::texts(putting.etags@).push(text::without_char(tag@, '"')).len() == part_count(
            transfer.size,
            transfer.client.part_bytes,
        ),
{
}

} // verus!
