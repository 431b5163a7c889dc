//! The negotiated parameters of one session.

use crate::command::Rejection;
use crate::text::text_is;
use vstd::prelude::*;
use vstd::string::StringExecFns;

verus! {

/// Everything a session has settled so far. All optional fields start unset;
/// an unset field is not the same as one set to the empty text.
#[derive(Debug)]
pub struct ConnectionState {
    /// The challenge sent to the peer. Drawn once, never replaced.
    pub hmac_payload: Option<String>,
    pub protocol_version: Option<String>,
    pub vendor_name: Option<String>,
    pub vendor_version: Option<String>,
    pub video: bool,
    pub video_codec: Option<String>,
    pub video_height: Option<String>,
    pub video_width: Option<String>,
    pub video_payload_type: Option<String>,
    pub video_ingest_ssrc: Option<String>,
    pub audio: bool,
    pub audio_codec: Option<String>,
    pub audio_payload_type: Option<String>,
    pub audio_ingest_ssrc: Option<String>,
    /// The stream the session publishes to. Set once, never replaced.
    pub stream_key: Option<String>,
    /// The UDP port handed to the peer. Set once, never replaced.
    pub rtp_port: Option<u16>,
}

/// The mathematical content of a [`ConnectionState`].
pub struct SessionView {
    pub hmac_payload: Option<Seq<char>>,
    pub protocol_version: Option<Seq<char>>,
    pub vendor_name: Option<Seq<char>>,
    pub vendor_version: Option<Seq<char>>,
    pub video: bool,
    pub video_codec: Option<Seq<char>>,
    pub video_height: Option<Seq<char>>,
    pub video_width: Option<Seq<char>>,
    pub video_payload_type: Option<Seq<char>>,
    pub video_ingest_ssrc: Option<Seq<char>>,
    pub audio: bool,
    pub audio_codec: Option<Seq<char>>,
    pub audio_payload_type: Option<Seq<char>>,
    pub audio_ingest_ssrc: Option<Seq<char>>,
    pub stream_key: Option<Seq<char>>,
    pub rtp_port: Option<u16>,
}

impl SessionView {
    /// The state of a session that has seen no command.
    pub open spec fn fresh() -> SessionView {
        SessionView {
            hmac_payload: None,
            protocol_version: None,
            vendor_name: None,
            vendor_version: None,
            video: false,
            video_codec: None,
            video_height: None,
            video_width: None,
            video_payload_type: None,
            video_ingest_ssrc: None,
            audio: false,
            audio_codec: None,
            audio_payload_type: None,
            audio_ingest_ssrc: None,
            stream_key: None,
            rtp_port: None,
        }
    }

    /// The challenge as it is sent: empty while none was drawn.
    pub open spec fn payload(self) -> Seq<char> {
        match self.hmac_payload {
            Some(payload) => payload,
            None => Seq::empty(),
        }
    }
}

impl View for ConnectionState {
    type V = SessionView;

    open spec fn view(&self) -> SessionView {
        SessionView {
            hmac_payload: self.hmac_payload.deep_view(),
            protocol_version: self.protocol_version.deep_view(),
            vendor_name: self.vendor_name.deep_view(),
            vendor_version: self.vendor_version.deep_view(),
            video: self.video,
            video_codec: self.video_codec.deep_view(),
            video_height: self.video_height.deep_view(),
            video_width: self.video_width.deep_view(),
            video_payload_type: self.video_payload_type.deep_view(),
            video_ingest_ssrc: self.video_ingest_ssrc.deep_view(),
            audio: self.audio,
            audio_codec: self.audio_codec.deep_view(),
            audio_payload_type: self.audio_payload_type.deep_view(),
            audio_ingest_ssrc: self.audio_ingest_ssrc.deep_view(),
            stream_key: self.stream_key.deep_view(),
            rtp_port: self.rtp_port,
        }
    }
}

/// How loudly a line of the snapshot is reported.
#[derive(Debug, Clone, Copy, PartialEq, Eq, Structural)]
pub enum Severity {
    /// The field is set.
    Info,
    /// The field is missing.
    Warn,
}

/// One line of the snapshot of a session.
#[derive(Debug, Clone, PartialEq, Eq)]
pub struct LogLine {
    pub level: Severity,
    pub text: String,
}

/// The mathematical content of a [`LogLine`].
pub struct LineView {
    pub level: Severity,
    pub text: Seq<char>,
}

impl View for LogLine {
    type V = LineView;

    open spec fn view(&self) -> LineView {
        LineView { level: self.level, text: self.text@ }
    }
}

impl DeepView for LogLine {
    type V = LineView;

    open spec fn deep_view(&self) -> LineView {
        self@
    }
}

/// The line that reports an optional field: its value, or, louder, that it
/// is missing.
pub open spec fn field_line(label: Seq<char>, value: Option<Seq<char>>) -> LineView {
    match value {
        Some(value) => LineView { level: Severity::Info, text: label + ": "@ + value },
        None => LineView { level: Severity::Warn, text: label + ": None"@ },
    }
}

/// The line that reports a flag.
pub open spec fn flag_line(label: Seq<char>, flag: bool) -> LineView {
    LineView {
        level: Severity::Info,
        text: label + ": "@ + if flag {
            "true"@
        } else {
            "false"@
        },
    }
}

/// The snapshot of a session: one line for each negotiated field, in the
/// order in which the fields are declared.
pub open spec fn snapshot(state: SessionView) -> Seq<LineView> {
    seq![
        field_line("Protocol Version"@, state.protocol_version),
        field_line("Vendor Name"@, state.vendor_name),
        field_line("Vendor Version"@, state.vendor_version),
        flag_line("Video"@, state.video),
        field_line("Video Codec"@, state.video_codec),
        field_line("Video Height"@, state.video_height),
        field_line("Video Width"@, state.video_width),
        field_line("Video Payload Type"@, state.video_payload_type),
        field_line("Video Ingest SSRC"@, state.video_ingest_ssrc),
        flag_line("Audio"@, state.audio),
        field_line("Audio Codec"@, state.audio_codec),
        field_line("Audio Payload Type"@, state.audio_payload_type),
        field_line("Audio Ingest SSRC"@, state.audio_ingest_ssrc),
    ]
}

/// Writes the line that reports an optional field.
fn report_field(label: &str, value: &Option<String>) -> (line: LogLine)
    ensures
        line@ == field_line(label@, value.deep_view()),
{
    let mut text = String::from_str(label);
    match value {
        Some(value) => {
            text.append(": ");
            text.append(value.as_str());
            LogLine { level: Severity::Info, text }
        },
        None => {
            text.append(": None");
            LogLine { level: Severity::Warn, text }
        },
    }
}

/// Writes the line that reports a flag.
fn report_flag(label: &str, flag: bool) -> (line: LogLine)
    ensures
        line@ == flag_line(label@, flag),
{
    let mut text = String::from_str(label);
    text.append(": ");
    if flag {
        text.append("true");
    } else {
        text.append("false");
    }
    LogLine { level: Severity::Info, text }
}

/// What the literals `true` and `false` stand for; nothing else is a flag.
pub open spec fn flag_value(value: Seq<char>) -> Option<bool> {
    if value == "true"@ {
        Some(true)
    } else if value == "false"@ {
        Some(false)
    } else {
        None
    }
}

/// The state after the attribute `key` was declared as `value`, or why the
/// declaration is turned down.
pub open spec fn attribute_update(state: SessionView, key: Seq<char>, value: Seq<char>) -> Result<
    SessionView,
    Rejection,
> {
    if key == "ProtocolVersion"@ {
        Ok(SessionView { protocol_version: Some(value), ..state })
    } else if key == "VendorName"@ {
        Ok(SessionView { vendor_name: Some(value), ..state })
    } else if key == "VendorVersion"@ {
        Ok(SessionView { vendor_version: Some(value), ..state })
    } else if key == "Video"@ {
        match flag_value(value) {
            Some(flag) => Ok(SessionView { video: flag, ..state }),
            None => Err(Rejection::InvalidVideoValue),
        }
    } else if key == "VideoCodec"@ {
        Ok(SessionView { video_codec: Some(value), ..state })
    } else if key == "VideoHeight"@ {
        Ok(SessionView { video_height: Some(value), ..state })
    } else if key == "VideoWidth"@ {
        Ok(SessionView { video_width: Some(value), ..state })
    } else if key == "VideoPayloadType"@ {
        Ok(SessionView { video_payload_type: Some(value), ..state })
    } else if key == "VideoIngestSSRC"@ {
        Ok(SessionView { video_ingest_ssrc: Some(value), ..state })
    } else if key == "Audio"@ {
        match flag_value(value) {
            Some(flag) => Ok(SessionView { audio: flag, ..state }),
            None => Err(Rejection::InvalidAudioValue),
        }
    } else if key == "AudioCodec"@ {
        Ok(SessionView { audio_codec: Some(value), ..state })
    } else if key == "AudioPayloadType"@ {
        Ok(SessionView { audio_payload_type: Some(value), ..state })
    } else if key == "AudioIngestSSRC"@ {
        Ok(SessionView { audio_ingest_ssrc: Some(value), ..state })
    } else {
        Err(Rejection::UnknownAttribute)
    }
}

/// Reads a flag literal.
fn parse_flag(value: &String) -> (flag: Option<bool>)
    ensures
        flag == flag_value(value@),
{
    if text_is(value, "true") {
        Some(true)
    } else if text_is(value, "false") {
        Some(false)
    } else {
        None
    }
}

impl ConnectionState {
    /// The state of a session that has seen no command.
    pub fn new() -> (state: ConnectionState)
        ensures
            state@ == SessionView::fresh(),
    {
        ConnectionState {
            hmac_payload: None,
            protocol_version: None,
            vendor_name: None,
            vendor_version: None,
            video: false,
            video_codec: None,
            video_height: None,
            video_width: None,
            video_payload_type: None,
            video_ingest_ssrc: None,
            audio: false,
            audio_codec: None,
            audio_payload_type: None,
            audio_ingest_ssrc: None,
            stream_key: None,
            rtp_port: None,
        }
    }

    /// The challenge as it is sent: empty while none was drawn.
    pub fn get_payload(&self) -> (payload: String)
        ensures
            payload@ == self@.payload(),
    {
        match &self.hmac_payload {
            Some(payload) => payload.clone(),
            None => String::new(),
        }
    }

    /// The snapshot of the session, for the log: every negotiated field, a
    /// missing one reported louder than a set one.
    pub fn print(&self) -> (lines: Vec<LogLine>)
        ensures
            lines.deep_view() == snapshot(self@),
    {
        let mut lines: Vec<LogLine> = Vec::new();
        lines.push(report_field("Protocol Version", &self.protocol_version));
        lines.push(report_field("Vendor Name", &self.vendor_name));
        lines.push(report_field("Vendor Version", &self.vendor_version));
        lines.push(report_flag("Video", self.video));
        lines.push(report_field("Video Codec", &self.video_codec));
        lines.push(report_field("Video Height", &self.video_height));
        lines.push(report_field("Video Width", &self.video_width));
        lines.push(report_field("Video Payload Type", &self.video_payload_type));
        lines.push(report_field("Video Ingest SSRC", &self.video_ingest_ssrc));
        lines.push(report_flag("Audio", self.audio));
        lines.push(report_field("Audio Codec", &self.audio_codec));
        lines.push(report_field("Audio Payload Type", &self.audio_payload_type));
        lines.push(report_field("Audio Ingest SSRC", &self.audio_ingest_ssrc));
        assert(lines.deep_view() =~= snapshot(self@));
        lines
    }

    /// Records the attribute `key` as `value`. An unknown key, or a flag that
    /// is neither `true` nor `false`, is turned down and changes nothing.
    pub fn set_attribute(&mut self, key: &String, value: String) -> (outcome: Result<
        (),
        Rejection,
    >)
        ensures
            match attribute_update(old(self)@, key@, value@) {
                Ok(next) => outcome is Ok && final(self)@ == next,
                Err(why) => outcome == Err::<(), Rejection>(why) && final(self)@ == old(self)@,
            },
    {
        if text_is(key, "ProtocolVersion") {
            self.protocol_version = Some(value);
        } else if text_is(key, "VendorName") {
            self.vendor_name = Some(value);
        } else if text_is(key, "VendorVersion") {
            self.vendor_version = Some(value);
        } else if text_is(key, "Video") {
            match parse_flag(&value) {
                Some(flag) => {
                    self.video = flag;
                },
                None => {
                    return Err(Rejection::InvalidVideoValue);
                },
            }
        } else if text_is(key, "VideoCodec") {
            self.video_codec = Some(value);
        } else if text_is(key, "VideoHeight") {
            self.video_height = Some(value);
        } else if text_is(key, "VideoWidth") {
            self.video_width = Some(value);
        } else if text_is(key, "VideoPayloadType") {
            self.video_payload_type = Some(value);
        } else if text_is(key, "VideoIngestSSRC") {
            self.video_ingest_ssrc = Some(value);
        } else if text_is(key, "Audio") {
            match parse_flag(&value) {
                Some(flag) => {
                    self.audio = flag;
                },
                None => {
                    return Err(Rejection::InvalidAudioValue);
                },
            }
        } else if text_is(key, "AudioCodec") {
            self.audio_codec = Some(value);
        } else if text_is(key, "AudioPayloadType") {
            self.audio_payload_type = Some(value);
        } else if text_is(key, "AudioIngestSSRC") {
            self.audio_ingest_ssrc = Some(value);
        } else {
            return Err(Rejection::UnknownAttribute);
        }
        Ok(())
    }
}

} // verus!
