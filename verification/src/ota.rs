//! How a new firmware image is loaded over the network.

use vstd::prelude::*;

use crate::app::{SignalType, SignalView};
use crate::common::{FIRMWARE_MAX_SIZE, FIRMWARE_MIN_EXTRA};
use crate::error::Failure;
use crate::reaction::{notices_view, Notice, NoticeView};

verus! {

/// What an address says about where an image is.
#[derive(Debug)]
pub struct UriParts {
    pub host: Option<String>,
    pub port: Option<u16>,
    /// The path with the query behind it.
    pub path: Option<String>,
}

/// What an address says about where an image is.
#[verifier::ext_equal]
pub struct UriView {
    pub host: Option<Seq<char>>,
    pub port: Option<u16>,
    pub path: Option<Seq<char>>,
}

impl View for UriParts {
    type V = UriView;

    open spec fn view(&self) -> UriView {
        UriView {
            host: match self.host {
                Some(host) => Some(host@),
                None => None,
            },
            port: self.port,
            path: match self.path {
                Some(path) => Some(path@),
                None => None,
            },
        }
    }
}

/// Why a text is no address.
#[verifier::external_type_specification]
#[verifier::external_body]
pub struct ExInvalidUri(http::uri::InvalidUri);

/// What an address says, as `http::Uri` reads it: its host, its port, and its
/// path with the query; none where `http::Uri` refuses the text.
pub uninterp spec fn uri_parts_of(text: Seq<char>) -> Option<UriView>;

/// Reads an address by `<http::Uri as FromStr>::from_str` and takes from it
/// what `Uri::host`, `Uri::port_u16` and `Uri::path_and_query` give. All of it
/// is determined by the text and is named `uri_parts_of`; nothing more is
/// claimed of it.
#[verifier::external_body]
fn parse_uri(text: &str) -> (res: Result<UriParts, http::uri::InvalidUri>)
    ensures
        match res {
            Ok(parts) => uri_parts_of(text@) == Some(parts@),
            Err(_) => uri_parts_of(text@) is None,
        },
{
    let uri: http::Uri = text.parse()?;
    Ok(UriParts {
        host: uri.host().map(|host| host.to_string()),
        port: uri.port_u16(),
        path: uri.path_and_query().map(|path| path.as_str().to_string()),
    })
}

/// What is to be done next to load an image.
#[derive(Clone, Copy, Debug, PartialEq, Eq)]
pub enum Stage {
    /// Find the address of the host.
    Resolve,
    /// Send the request for the image to the port of that address.
    Request,
    /// Wait for the head of the response.
    Response,
    /// Prepare the partition for an image of that many bytes.
    Begin { size: u64 },
    /// Copy that many bytes from the response to the partition.
    Copy { size: u64 },
    /// Make the image the one that is started next.
    Complete,
    /// Give the partition up.
    Abort,
    /// Nothing: loading has ended so.
    Done(Result<(), Failure>),
    /// Nothing: the address lacks what is needed, and the controller gives up.
    Fault,
}

/// What came of what was to be done.
#[derive(Clone, Copy, Debug, PartialEq, Eq, Structural)]
pub enum Event {
    Succeeded,
    Failed(Failure),
    /// The head of a response: its status and the length of its body, if it
    /// tells.
    Head { code: u16, content_len: Option<u64> },
}

/// Whether an image of `size` bytes can be right, if the description of the
/// firmware alone takes `info_size` bytes.
pub open spec fn size_fits(size: int, info_size: int) -> bool {
    info_size + FIRMWARE_MIN_EXTRA < size <= FIRMWARE_MAX_SIZE
}

/// The length that a response announces: none is none at all.
pub open spec fn announced(content_len: Option<u64>) -> u64 {
    match content_len {
        Some(len) => len,
        None => 0,
    }
}

/// What follows upon the head of a response.
pub open spec fn stage_for_head(code: u16, content_len: Option<u64>, info_size: int) -> Stage {
    if code != 200 {
        Stage::Done(Err(Failure::InvalidResponse))
    } else if !size_fits(announced(content_len) as int, info_size) {
        Stage::Done(Err(Failure::ImageInvalid))
    } else {
        Stage::Begin { size: announced(content_len) }
    }
}

impl Stage {
    /// The event can come at this stage.
    pub open spec fn expects(self, event: Event) -> bool {
        match self {
            Stage::Done(_) => false,
            Stage::Fault => false,
            Stage::Response => !(event is Succeeded),
            _ => !(event is Head),
        }
    }

    /// What follows upon an event. `reachable` says whether the address names
    /// a port and a path. What comes of giving the partition up is what comes
    /// of loading.
    pub open spec fn after(self, event: Event, reachable: bool, info_size: int) -> Stage {
        match (self, event) {
            (Stage::Resolve, Event::Failed(_)) => Stage::Done(Err(Failure::NotFound)),
            (Stage::Resolve, _) => if reachable {
                Stage::Request
            } else {
                Stage::Fault
            },
            (Stage::Request, Event::Failed(_)) => Stage::Done(Err(Failure::Fail)),
            (Stage::Request, _) => Stage::Response,
            (Stage::Response, Event::Head { code, content_len }) => stage_for_head(
                code,
                content_len,
                info_size,
            ),
            (Stage::Response, _) => Stage::Done(Err(Failure::Fail)),
            (Stage::Begin { size: _ }, Event::Failed(e)) => Stage::Done(Err(e)),
            (Stage::Begin { size }, _) => Stage::Copy { size },
            (Stage::Copy { size: _ }, Event::Failed(_)) => Stage::Abort,
            (Stage::Copy { size: _ }, _) => Stage::Complete,
            (_, Event::Failed(e)) => Stage::Done(Err(e)),
            (_, _) => Stage::Done(Ok(())),
        }
    }
}

/// An image on its way.
#[derive(Debug)]
pub struct Download {
    pub parts: UriParts,
    pub stage: Stage,
}

/// Where loading begins, given what the address says: none where it is no
/// address.
pub open spec fn first_stage(parts: Option<UriView>) -> Stage {
    match parts {
        None => Stage::Done(Err(Failure::Fail)),
        Some(parts) => if parts.host is Some {
            Stage::Resolve
        } else {
            Stage::Fault
        },
    }
}

/// Whether an image of `size` bytes can be right, if the description of the
/// firmware alone takes `info_size` bytes.
pub fn check_size(size: u64, info_size: u64) -> (res: Result<(), Failure>)
    requires
        info_size + FIRMWARE_MIN_EXTRA <= u64::MAX,
    ensures
        match res {
            Ok(_) => size_fits(size as int, info_size as int),
            Err(e) => e == Failure::ImageInvalid && !size_fits(size as int, info_size as int),
        },
{
    if size <= info_size + FIRMWARE_MIN_EXTRA {
        return Err(Failure::ImageInvalid);
    }
    if size > FIRMWARE_MAX_SIZE {
        return Err(Failure::ImageInvalid);
    }
    Ok(())
}

impl Download {
    /// The address names a port and a path.
    pub open spec fn reachable(&self) -> bool {
        self.parts.port is Some && self.parts.path is Some
    }

    /// What the stage needs is there.
    pub open spec fn wf(&self) -> bool {
        match self.stage {
            Stage::Resolve => self.parts.host is Some,
            Stage::Done(_) => true,
            Stage::Fault => true,
            _ => self.parts.host is Some && self.reachable(),
        }
    }

    /// Begins to load the image at an address, given what the address says:
    /// none where it is no address.
    pub fn from_parts(parts: Option<UriParts>) -> (res: Download)
        ensures
            res.stage == first_stage(
                match parts {
                    Some(parts) => Some(parts@),
                    None => None,
                },
            ),
            parts matches Some(p) ==> res.parts == p,
            res.wf(),
    {
        match parts {
            Some(parts) => {
                let stage = if parts.host.is_some() {
                    Stage::Resolve
                } else {
                    Stage::Fault
                };
                Download { parts, stage }
            },
            None => Download {
                parts: UriParts { host: None, port: None, path: None },
                stage: Stage::Done(Err(Failure::Fail)),
            },
        }
    }

    /// Begins to load the image at an address.
    pub fn new(uri: &str) -> (res: Download)
        ensures
            res.stage == first_stage(uri_parts_of(uri@)),
            uri_parts_of(uri@) matches Some(parts) ==> res.parts@ == parts,
            res.wf(),
    {
        match parse_uri(uri) {
            Ok(parts) => Download::from_parts(Some(parts)),
            Err(_) => Download::from_parts(None),
        }
    }

    /// Goes on upon an event. `info_size` is how many bytes the description of
    /// the firmware takes.
    pub fn on_event(&mut self, event: Event, info_size: u64)
        requires
            old(self).stage.expects(event),
            info_size + FIRMWARE_MIN_EXTRA <= u64::MAX,
        ensures
            final(self).stage == old(self).stage.after(
                event,
                old(self).reachable(),
                info_size as int,
            ),
            final(self).parts == old(self).parts,
            old(self).wf() ==> final(self).wf(),
    {
        let reachable = self.parts.port.is_some() && self.parts.path.is_some();
        self.stage = match self.stage {
            Stage::Resolve => match event {
                Event::Failed(_) => Stage::Done(Err(Failure::NotFound)),
                _ => if reachable {
                    Stage::Request
                } else {
                    Stage::Fault
                },
            },
            Stage::Request => match event {
                Event::Failed(_) => Stage::Done(Err(Failure::Fail)),
                _ => Stage::Response,
            },
            Stage::Response => match event {
                Event::Head { code, content_len } => {
                    let size: u64 = match content_len {
                        Some(len) => len,
                        None => 0,
                    };
                    if code != 200 {
                        Stage::Done(Err(Failure::InvalidResponse))
                    } else {
                        match check_size(size, info_size) {
                            Ok(_) => Stage::Begin { size },
                            Err(e) => Stage::Done(Err(e)),
                        }
                    }
                },
                _ => Stage::Done(Err(Failure::Fail)),
            },
            Stage::Begin { size } => match event {
                Event::Failed(e) => Stage::Done(Err(e)),
                _ => Stage::Copy { size },
            },
            Stage::Copy { size: _ } => match event {
                Event::Failed(_) => Stage::Abort,
                _ => Stage::Complete,
            },
            _ => match event {
                Event::Failed(e) => Stage::Done(Err(e)),
                _ => Stage::Done(Ok(())),
            },
        };
    }
}

/// What is said and done after loading has ended.
pub open spec fn update_notices(outcome: Result<(), Failure>) -> Seq<NoticeView> {
    match outcome {
        Ok(_) => seq![
            NoticeView::Signal(
                SignalView::Log("OTA download successful! rebooting to new image..."@),
            ),
            NoticeView::Restart,
        ],
        Err(_) => seq![NoticeView::Signal(SignalView::Log("OTA failed!"@))],
    }
}

/// What is said and done after loading has ended.
pub fn update_report(outcome: Result<(), Failure>) -> (notices: Vec<Notice>)
    ensures
        notices_view(notices@) == update_notices(outcome),
{
    let notices = match outcome {
        Ok(_) => vec![
            Notice::Signal(
                SignalType::Log("OTA download successful! rebooting to new image...".to_owned()),
            ),
            Notice::Restart,
        ],
        Err(_) => vec![Notice::Signal(SignalType::Log("OTA failed!".to_owned()))],
    };
    assert(notices_view(notices@) =~= update_notices(outcome));
    notices
}

/// A partition is prepared only for an image that a response with status 200
/// announced, and only if the size of the image can be right.
pub proof fn law_only_sound_images_are_written(
    stage: Stage,
    event: Event,
    reachable: bool,
    info_size: int,
    size: u64,
)
    requires
        stage.expects(event),
        0 <= info_size,
        stage.after(event, reachable, info_size) == (Stage::Begin { size }),
    ensures
        stage is Response,
        event == (Event::Head { code: 200, content_len: Some(size) }),
        size_fits(size as int, info_size),
{
}

/// As many bytes are copied as were announced, and only into a partition that
/// was prepared.
pub proof fn law_announced_size_is_copied(
    stage: Stage,
    event: Event,
    reachable: bool,
    info_size: int,
    size: u64,
)
    requires
        stage.expects(event),
        stage.after(event, reachable, info_size) == (Stage::Copy { size }),
    ensures
        stage == (Stage::Begin { size }),
        event == Event::Succeeded,
{
}

/// An image becomes the one that is started next only after all of it was
/// copied, and a partition is given up just where copying failed.
pub proof fn law_only_whole_images_are_completed(
    stage: Stage,
    event: Event,
    reachable: bool,
    info_size: int,
)
    requires
        stage.expects(event),
    ensures
        stage.after(event, reachable, info_size) is Complete <==> stage is Copy && event
            == Event::Succeeded,
        stage.after(event, reachable, info_size) is Abort <==> stage is Copy && event is Failed,
{
}

/// How far loading has come.
pub open spec fn progress(stage: Stage) -> int {
    match stage {
        Stage::Resolve => 0,
        Stage::Request => 1,
        Stage::Response => 2,
        Stage::Begin { size: _ } => 3,
        Stage::Copy { size: _ } => 4,
        Stage::Complete => 5,
        Stage::Abort => 5,
        Stage::Done(_) => 6,
        Stage::Fault => 6,
    }
}

/// Loading ends: every event brings it nearer to its end, and at the end it
/// waits for no more events.
pub proof fn law_loading_ends(stage: Stage, event: Event, reachable: bool, info_size: int)
    requires
        stage.expects(event),
    ensures
        progress(stage) < progress(stage.after(event, reachable, info_size)) <= 6,
        progress(stage.after(event, reachable, info_size)) == 6 ==> forall|e: Event|
            !#[trigger] stage.after(event, reachable, info_size).expects(e),
{
}

/// The controller restarts after loading if and only if loading has ended
/// well, and last of all. Whichever way it failed, all that is done is to say
/// so, once.
pub proof fn law_only_success_restarts(outcome: Result<(), Failure>)
    ensures
        update_notices(outcome).contains(NoticeView::Restart) <==> outcome is Ok,
        outcome is Err ==> {
            &&& update_notices(outcome).len() == 1
            &&& update_notices(outcome)[0] == NoticeView::Signal(
                SignalView::Log("OTA failed!"@),
            )
        },
        outcome is Ok ==> {
            &&& update_notices(outcome).len() == 2
            &&& update_notices(outcome)[0] == NoticeView::Signal(
                SignalView::Log("OTA download successful! rebooting to new image..."@),
            )
            &&& update_notices(outcome)[1] is Restart
        },
{
    if outcome is Ok {
        assert(update_notices(outcome)[1] == NoticeView::Restart);
    }
}

/// What size can be right: more than a kilobyte besides the description of
/// the firmware, and no more than a partition holds.
pub proof fn law_sizes_that_can_be_right(size: int, info_size: int)
    ensures
        size_fits(size, info_size) <==> size > info_size + 1024 && size <= 2031616,
{
}

/// What comes of the head of a response. Any status but 200 is refused, and
/// then any length that is missing or cannot be right; and an image of any
/// other length is begun with just that length.
pub proof fn law_heads_are_judged(
    code: u16,
    content_len: Option<u64>,
    reachable: bool,
    info_size: int,
)
    requires
        0 <= info_size,
    ensures
        ({
            let stage = Stage::Response.after(
                Event::Head { code, content_len },
                reachable,
                info_size,
            );
            &&& stage == Stage::Done(Err(Failure::InvalidResponse)) <==> code != 200
            &&& stage == Stage::Done(Err(Failure::ImageInvalid)) <==> code == 200 && !(content_len
                matches Some(len) && size_fits(len as int, info_size))
            &&& stage is Begin <==> code == 200 && (content_len matches Some(len) && size_fits(
                len as int,
                info_size,
            ))
            &&& stage matches Stage::Begin { size } ==> content_len == Some(size)
        }),
{
}

/// What comes of a failure: a host that is not found is reported as that, the
/// loss of the request or of the response as a general failure, and what the
/// platform itself refuses as what the platform says. A copy that failed is
/// not yet the end, since the partition has to be given up.
pub proof fn law_failures_are_reported(
    stage: Stage,
    e: Failure,
    reachable: bool,
    info_size: int,
)
    requires
        stage.expects(Event::Failed(e)),
    ensures
        ({
            let next = stage.after(Event::Failed(e), reachable, info_size);
            &&& stage is Resolve ==> next == Stage::Done(Err(Failure::NotFound))
            &&& stage is Request || stage is Response ==> next == Stage::Done(Err(Failure::Fail))
            &&& stage is Begin || stage is Complete || stage is Abort ==> next == Stage::Done(
                Err(e),
            )
            &&& stage is Copy ==> next is Abort
            &&& next != Stage::Done(Ok(()))
        }),
{
}

/// What comes of a success: loading goes on from the address to the request,
/// if the address names a port and a path, and then to the response; and it
/// has ended well just where the last thing that was to be done with the
/// partition was done.
pub proof fn law_successes_lead_on(stage: Stage, reachable: bool, info_size: int)
    requires
        stage.expects(Event::Succeeded),
    ensures
        ({
            let next = stage.after(Event::Succeeded, reachable, info_size);
            &&& stage is Resolve && reachable ==> next is Request
            &&& stage is Resolve && !reachable ==> next is Fault
            &&& stage is Request ==> next is Response
            &&& next == Stage::Done(Ok(())) <==> stage is Complete || stage is Abort
        }),
{
}

/// Where loading begins. A text that is no address is a failure at once, and
/// an address without a host a fault; any other host is looked up.
pub proof fn law_loading_begins(parts: Option<UriView>)
    ensures
        first_stage(parts) == Stage::Done(Err(Failure::Fail)) <==> parts is None,
        first_stage(parts) is Resolve <==> (parts matches Some(p) && p.host is Some),
        first_stage(parts) is Fault <==> (parts matches Some(p) && p.host is None),
{
}

/// The view of an address holds all that the address says, and a download is
/// ready to go on just with a port and a path.
pub proof fn law_addresses_are_kept(parts: UriParts, download: Download)
    ensures
        parts@.port == parts.port,
        parts.host is Some <==> parts@.host is Some,
        parts.host matches Some(host) ==> parts@.host == Some(host@),
        parts.path is Some <==> parts@.path is Some,
        parts.path matches Some(path) ==> parts@.path == Some(path@),
        download.reachable() <==> download.parts.port is Some && download.parts.path is Some,
{
}

/// What can come at a stage: nothing at the end, the head of a response just
/// while one is waited for, and a failure at any time before the end.
pub proof fn law_stages_expect_their_events(stage: Stage, event: Event)
    ensures
        stage.expects(event) ==> !(stage is Done) && !(stage is Fault),
        event is Head ==> (stage.expects(event) <==> stage is Response),
        event is Failed ==> (stage.expects(event) <==> !(stage is Done) && !(stage is Fault)),
        event is Succeeded ==> (stage.expects(event) <==> !(stage is Done) && !(stage is Fault)
            && !(stage is Response)),
{
}

} // verus!
