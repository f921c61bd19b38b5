//! The inning-breakdown fallback: a step machine over the ordered endpoint
//! candidates (live feed, then linescore plus boxscore, then play-by-play).
//! The caller performs each requested fetch and hands the outcome back; the
//! machine records failures, accepts the first normalizable response, and
//! closes with either the value or the aggregated error. Each candidate is
//! attempted at most once, and after a success no further request is made.

use vstd::prelude::*;

verus! {

use crate::error::SportError;
use crate::json::{parse_json, parsed_json};
use crate::mlb::normalize::{
    feed_live_result_matches,
    feed_live_shape_ok,
    linescore_result_matches,
    linescore_shape_ok,
    normalize_feed_live_innings,
    normalize_linescore_innings,
};
use crate::mlb::GameInnings;
use crate::resolver::{aggregate_message, FallbackResolver};
use crate::strutil::{concat2, spec_dec, u32_string};

/// Which endpoint the caller should fetch next.
#[derive(Debug, Clone, Copy, PartialEq, Eq, Structural)]
pub enum InningsRequest {
    FeedLive,
    Linescore,
    Boxscore,
    PlayByPlay,
}

/// What one fetch produced: a transport-level failure with its message, or
/// a response with its status code and body text.
#[derive(Debug)]
pub enum FetchOutcome {
    Transport(String),
    Response(u16, String),
}

/// An HTTP status that counts as success.
pub open spec fn ok_status(status: u16) -> bool {
    200 <= status < 300
}

/// The failure message recorded for a non-success response.
pub open spec fn http_err_msg(status: u16) -> Seq<char> {
    "HTTP error: "@ + spec_dec(status as nat)
}

/// The failure message recorded when the boxscore fetch of the linescore
/// candidate answers with a non-success status.
pub open spec fn box_http_err_msg(status: u16) -> Seq<char> {
    "Failed to fetch game data from boxscore: HTTP "@ + spec_dec(status as nat)
}

/// The failure message recorded for a response body that is not JSON.
pub open spec fn bad_json_msg() -> Seq<char> {
    "invalid JSON body"@
}

/// The failure message of the play-by-play candidate's answered response.
pub open spec fn play_by_play_msg() -> Seq<char> {
    "Play-by-play endpoint found but not implemented for inning extraction"@
}

/// The candidate labels of the inning-breakdown fallback, in order.
pub open spec fn innings_labels() -> Seq<Seq<char>> {
    seq!["feed/live"@, "linescore"@, "playByPlay"@]
}

#[derive(Clone, Copy, PartialEq, Eq, Structural)]
enum Stage {
    FeedLive,
    Linescore,
    Boxscore,
    PlayByPlay,
    Done,
}

/// The inning-breakdown fetch in progress for one game.
pub struct InningsFetch {
    game_id: u32,
    resolver: FallbackResolver<GameInnings>,
    stage: Stage,
    pending: Option<String>,
}

impl InningsFetch {
    /// The game this fetch is about.
    pub closed spec fn spec_game_id(&self) -> u32 {
        self.game_id
    }

    /// The failure messages recorded so far, in candidate order.
    pub closed spec fn spec_errors(&self) -> Seq<Seq<char>> {
        self.resolver.spec_errors()
    }

    /// Whether a candidate has delivered a breakdown.
    pub closed spec fn succeeded(&self) -> bool {
        self.resolver.has_outcome()
    }

    /// The delivered breakdown, if any.
    pub closed spec fn spec_value(&self) -> Option<GameInnings> {
        self.resolver.spec_outcome()
    }

    /// The endpoint to fetch next, nothing once the machine is done.
    pub closed spec fn spec_request(&self) -> Option<InningsRequest> {
        match self.stage {
            Stage::FeedLive => Some(InningsRequest::FeedLive),
            Stage::Linescore => Some(InningsRequest::Linescore),
            Stage::Boxscore => Some(InningsRequest::Boxscore),
            Stage::PlayByPlay => Some(InningsRequest::PlayByPlay),
            Stage::Done => None,
        }
    }

    /// The linescore body held while the boxscore fetch is pending.
    pub closed spec fn pending_linescore(&self) -> Option<Seq<char>> {
        if self.stage is Boxscore {
            match self.pending {
                Some(b) => Some(b@),
                None => None,
            }
        } else {
            None
        }
    }

    /// The machine's internal agreement: the resolver walks the three fixed
    /// candidate labels, and the stage says how many candidates have failed.
    pub closed spec fn wf(&self) -> bool {
        &&& self.resolver.wf()
        &&& self.resolver.spec_labels() == innings_labels()
        &&& match self.stage {
            Stage::FeedLive => self.resolver.spec_errors().len() == 0
                && !self.resolver.has_outcome(),
            Stage::Linescore => self.resolver.spec_errors().len() == 1
                && !self.resolver.has_outcome(),
            Stage::Boxscore => self.resolver.spec_errors().len() == 1
                && !self.resolver.has_outcome() && self.pending is Some,
            Stage::PlayByPlay => self.resolver.spec_errors().len() == 2
                && !self.resolver.has_outcome(),
            Stage::Done => self.resolver.settled(),
        }
    }

    /// Starts the fallback for one game: the live feed is asked first.
    pub fn new(game_id: u32) -> (r: InningsFetch)
        ensures
            r.wf(),
            r.spec_game_id() == game_id,
            r.spec_request() == Some(InningsRequest::FeedLive),
            r.spec_errors().len() == 0,
            !r.succeeded(),
    {
        let mut labels: Vec<String> = Vec::new();
        labels.push("feed/live".to_owned());
        labels.push("linescore".to_owned());
        labels.push("playByPlay".to_owned());
        proof {
            assert(labels.deep_view() =~= innings_labels());
        }
        InningsFetch {
            game_id,
            resolver: FallbackResolver::new(labels),
            stage: Stage::FeedLive,
            pending: None,
        }
    }

    /// The endpoint to fetch next; nothing once a candidate has succeeded
    /// or every candidate has failed.
    pub fn request(&self) -> (r: Option<InningsRequest>)
        requires
            self.wf(),
        ensures
            r == self.spec_request(),
            self.succeeded() ==> r is None,
    {
        match self.stage {
            Stage::FeedLive => Some(InningsRequest::FeedLive),
            Stage::Linescore => Some(InningsRequest::Linescore),
            Stage::Boxscore => Some(InningsRequest::Boxscore),
            Stage::PlayByPlay => Some(InningsRequest::PlayByPlay),
            Stage::Done => None,
        }
    }

    /// Feeds the outcome of the requested fetch into the machine. A
    /// transport failure, a non-success status or an unusable body records
    /// the candidate's failure and moves to the next candidate; a response
    /// that normalizes settles the machine with its value.
    pub fn on_response(&mut self, outcome: FetchOutcome)
        requires
            old(self).wf(),
            old(self).spec_request() is Some,
        ensures
            final(self).wf(),
            final(self).spec_game_id() == old(self).spec_game_id(),
            old(self).spec_request() == Some(InningsRequest::FeedLive) ==> ({
                let fail = {
                    &&& final(self).spec_errors().len() == old(self).spec_errors().len() + 1
                    &&& final(self).spec_errors().drop_last() == old(self).spec_errors()
                    &&& !final(self).succeeded()
                    &&& final(self).spec_request() == Some(InningsRequest::Linescore)
                };
                match outcome {
                    FetchOutcome::Transport(m) => fail && final(self).spec_errors().last() == m@,
                    FetchOutcome::Response(st, body) => {
                        if !ok_status(st) {
                            fail && final(self).spec_errors().last() == http_err_msg(st)
                        } else {
                            match parsed_json(body@) {
                                None => fail && final(self).spec_errors().last() == bad_json_msg(),
                                Some(doc) => {
                                    if feed_live_shape_ok(doc) {
                                        &&& final(self).succeeded()
                                        &&& final(self).spec_errors() == old(self).spec_errors()
                                        &&& final(self).spec_request() is None
                                        &&& (final(self).spec_value() matches Some(gi)
                                            && feed_live_result_matches(gi, doc))
                                    } else {
                                        fail
                                    }
                                },
                            }
                        }
                    },
                }
            }),
            old(self).spec_request() == Some(InningsRequest::Linescore) ==> ({
                let fail = {
                    &&& final(self).spec_errors().len() == old(self).spec_errors().len() + 1
                    &&& final(self).spec_errors().drop_last() == old(self).spec_errors()
                    &&& !final(self).succeeded()
                    &&& final(self).spec_request() == Some(InningsRequest::PlayByPlay)
                };
                match outcome {
                    FetchOutcome::Transport(m) => fail && final(self).spec_errors().last() == m@,
                    FetchOutcome::Response(st, body) => {
                        if !ok_status(st) {
                            fail && final(self).spec_errors().last() == http_err_msg(st)
                        } else {
                            &&& final(self).spec_errors() == old(self).spec_errors()
                            &&& !final(self).succeeded()
                            &&& final(self).spec_request() == Some(InningsRequest::Boxscore)
                            &&& final(self).pending_linescore() == Some(body@)
                        }
                    },
                }
            }),
            old(self).spec_request() == Some(InningsRequest::Boxscore) ==> ({
                let fail = {
                    &&& final(self).spec_errors().len() == old(self).spec_errors().len() + 1
                    &&& final(self).spec_errors().drop_last() == old(self).spec_errors()
                    &&& !final(self).succeeded()
                    &&& final(self).spec_request() == Some(InningsRequest::PlayByPlay)
                };
                match outcome {
                    FetchOutcome::Transport(m) => fail && final(self).spec_errors().last() == m@,
                    FetchOutcome::Response(st, body) => {
                        if !ok_status(st) {
                            fail && final(self).spec_errors().last() == box_http_err_msg(st)
                        } else {
                            match parsed_json(body@) {
                                None => fail && final(self).spec_errors().last() == bad_json_msg(),
                                Some(boxdoc) => match parsed_json(
                                    old(self).pending_linescore()->Some_0,
                                ) {
                                    None => fail && final(self).spec_errors().last()
                                        == bad_json_msg(),
                                    Some(ls) => {
                                        if linescore_shape_ok(ls) {
                                            &&& final(self).succeeded()
                                            &&& final(self).spec_errors() == old(
                                                self,
                                            ).spec_errors()
                                            &&& final(self).spec_request() is None
                                            &&& (final(self).spec_value() matches Some(gi)
                                                && linescore_result_matches(
                                                gi,
                                                ls,
                                                boxdoc,
                                                old(self).spec_game_id(),
                                            ))
                                        } else {
                                            fail
                                        }
                                    },
                                },
                            }
                        }
                    },
                }
            }),
            old(self).spec_request() == Some(InningsRequest::PlayByPlay) ==> ({
                let fail = {
                    &&& final(self).spec_errors().len() == old(self).spec_errors().len() + 1
                    &&& final(self).spec_errors().drop_last() == old(self).spec_errors()
                    &&& !final(self).succeeded()
                    &&& final(self).spec_request() is None
                };
                match outcome {
                    FetchOutcome::Transport(m) => fail && final(self).spec_errors().last() == m@,
                    FetchOutcome::Response(st, _body) => {
                        if !ok_status(st) {
                            fail && final(self).spec_errors().last() == http_err_msg(st)
                        } else {
                            fail && final(self).spec_errors().last() == play_by_play_msg()
                        }
                    },
                }
            }),
    {
        let game_id = self.game_id;
        match self.stage {
            Stage::FeedLive => {
                match outcome {
                    FetchOutcome::Transport(m) => {
                        self.resolver.record_failure(m);
                        self.stage = Stage::Linescore;
                    },
                    FetchOutcome::Response(st, body) => {
                        if !(200 <= st && st < 300) {
                            let msg = concat2("HTTP error: ", u32_string(st as u32).as_str());
                            self.resolver.record_failure(msg);
                            self.stage = Stage::Linescore;
                        } else {
                            match parse_json(body.as_str()) {
                                None => {
                                    self.resolver.record_failure("invalid JSON body".to_owned());
                                    self.stage = Stage::Linescore;
                                },
                                Some(doc) => match normalize_feed_live_innings(&doc) {
                                    Ok(gi) => {
                                        self.resolver.record_success(gi);
                                        self.stage = Stage::Done;
                                    },
                                    Err(e) => {
                                        let msg = match e {
                                            SportError::FetchError(m) => m,
                                            SportError::TeamNotFound(m) => m,
                                            SportError::GameNotFound(m) => m,
                                            SportError::PlayerNotFound(m) => m,
                                            SportError::DateError(m) => m,
                                        };
                                        self.resolver.record_failure(msg);
                                        self.stage = Stage::Linescore;
                                    },
                                },
                            }
                        }
                    },
                }
            },
            Stage::Linescore => {
                match outcome {
                    FetchOutcome::Transport(m) => {
                        self.resolver.record_failure(m);
                        self.stage = Stage::PlayByPlay;
                    },
                    FetchOutcome::Response(st, body) => {
                        if !(200 <= st && st < 300) {
                            let msg = concat2("HTTP error: ", u32_string(st as u32).as_str());
                            self.resolver.record_failure(msg);
                            self.stage = Stage::PlayByPlay;
                        } else {
                            self.pending = Some(body);
                            self.stage = Stage::Boxscore;
                        }
                    },
                }
            },
            Stage::Boxscore => {
                let ls_body = match &self.pending {
                    Some(b) => b.clone(),
                    None => String::new(),
                };
                match outcome {
                    FetchOutcome::Transport(m) => {
                        self.resolver.record_failure(m);
                        self.stage = Stage::PlayByPlay;
                    },
                    FetchOutcome::Response(st, body) => {
                        if !(200 <= st && st < 300) {
                            let msg = concat2(
                                "Failed to fetch game data from boxscore: HTTP ",
                                u32_string(st as u32).as_str(),
                            );
                            self.resolver.record_failure(msg);
                            self.stage = Stage::PlayByPlay;
                        } else {
                            match parse_json(body.as_str()) {
                                None => {
                                    self.resolver.record_failure("invalid JSON body".to_owned());
                                    self.stage = Stage::PlayByPlay;
                                },
                                Some(boxdoc) => match parse_json(ls_body.as_str()) {
                                    None => {
                                        self.resolver.record_failure(
                                            "invalid JSON body".to_owned(),
                                        );
                                        self.stage = Stage::PlayByPlay;
                                    },
                                    Some(ls) => match normalize_linescore_innings(
                                        &ls,
                                        &boxdoc,
                                        game_id,
                                    ) {
                                        Ok(gi) => {
                                            self.resolver.record_success(gi);
                                            self.stage = Stage::Done;
                                        },
                                        Err(e) => {
                                            let msg = match e {
                                                SportError::FetchError(m) => m,
                                                SportError::TeamNotFound(m) => m,
                                                SportError::GameNotFound(m) => m,
                                                SportError::PlayerNotFound(m) => m,
                                                SportError::DateError(m) => m,
                                            };
                                            self.resolver.record_failure(msg);
                                            self.stage = Stage::PlayByPlay;
                                        },
                                    },
                                },
                            }
                        }
                    },
                }
            },
            Stage::PlayByPlay => {
                match outcome {
                    FetchOutcome::Transport(m) => {
                        self.resolver.record_failure(m);
                        self.stage = Stage::Done;
                    },
                    FetchOutcome::Response(st, _body) => {
                        if !(200 <= st && st < 300) {
                            let msg = concat2("HTTP error: ", u32_string(st as u32).as_str());
                            self.resolver.record_failure(msg);
                            self.stage = Stage::Done;
                        } else {
                            self.resolver.record_failure(
                                "Play-by-play endpoint found but not implemented for inning extraction".to_owned(),
                            );
                            self.stage = Stage::Done;
                        }
                    },
                }
            },
            Stage::Done => {
                // unreachable under the precondition; leave the machine as it is
            },
        }
    }

    /// Closes the fallback: the delivered breakdown, or one aggregated
    /// error naming every endpoint tried and why each failed, in order.
    pub fn finish(self) -> (r: Result<GameInnings, SportError>)
        requires
            self.wf(),
            self.spec_request() is None,
        ensures
            self.succeeded() ==> (r matches Ok(gi) && self.spec_value() == Some(gi)),
            !self.succeeded() ==> (r matches Err(e) && e matches SportError::FetchError(m) && m@
                == "Could not retrieve inning data from any endpoint. Errors: "@
                + aggregate_message(innings_labels(), self.spec_errors())),
    {
        self.resolver.finish("Could not retrieve inning data from any endpoint. Errors: ")
    }
}

} // verus!
