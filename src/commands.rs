//! Argument lists of the downloader and encoder runs that make up a job.
use vstd::prelude::*;
use crate::quality::{local_video_of, selector, LocalVideo, QualityTier};
use crate::text::{decimal, decimal_text, digit_char, digit_text, same_text, texts};

verus! {

/// The container of the output file.
#[derive(Clone, Copy, Debug, PartialEq, Eq, Structural)]
pub enum ContainerFormat {
    Mp4,
    Mkv,
    Mov,
    Webm,
    Avi,
}

/// The platform whose hardware encoders the re-encoding run may use.
#[derive(Clone, Copy, Debug, PartialEq, Eq, Structural)]
pub enum Platform {
    MacOs,
    Windows,
    Linux,
}

/// Which external program a run starts.
#[derive(Clone, Copy, Debug, PartialEq, Eq, Structural)]
pub enum Tool {
    Downloader,
    Encoder,
}

/// One run of an external program.
#[derive(Clone, Debug)]
pub struct Invocation {
    pub tool: Tool,
    pub args: Vec<String>,
}

pub open spec fn extension_text(c: ContainerFormat) -> Seq<char> {
    match c {
        ContainerFormat::Mp4 => "mp4"@,
        ContainerFormat::Mkv => "mkv"@,
        ContainerFormat::Mov => "mov"@,
        ContainerFormat::Webm => "webm"@,
        ContainerFormat::Avi => "avi"@,
    }
}

pub open spec fn container_named(s: Seq<char>) -> Option<ContainerFormat> {
    if s == "mp4"@ {
        Some(ContainerFormat::Mp4)
    } else if s == "mkv"@ {
        Some(ContainerFormat::Mkv)
    } else if s == "mov"@ {
        Some(ContainerFormat::Mov)
    } else if s == "webm"@ {
        Some(ContainerFormat::Webm)
    } else if s == "avi"@ {
        Some(ContainerFormat::Avi)
    } else {
        None
    }
}

/// Milliseconds written as seconds with three decimals (`65000` is `"65.000"`).
pub open spec fn seconds_text(ms: nat) -> Seq<char> {
    decimal(ms / 1000) + "."@ + seq![
        digit_char((ms % 1000) / 100),
        digit_char((ms % 100) / 10),
        digit_char(ms % 10),
    ]
}

/// The downloader's selection of the time range `start..end`.
pub open spec fn section(start_ms: nat, end_ms: nat) -> Seq<char> {
    "*"@ + seconds_text(start_ms) + "-"@ + seconds_text(end_ms)
}

/// The downloader's output format for progress lines: one structured record per line.
pub open spec fn progress_template() -> Seq<char> {
    "download:PROGRESS|%(progress._percent_str)s|%(progress._speed_str)s|%(progress._eta_str)s|%(progress._total_bytes_str)s"@
}

pub open spec fn fetch_args(
    url: Seq<char>,
    start_ms: nat,
    end_ms: nat,
    tier: QualityTier,
    container: ContainerFormat,
    dest: Seq<char>,
) -> Seq<Seq<char>> {
    seq![
        "--newline"@,
        "--progress-template"@,
        progress_template(),
        "--download-sections"@,
        section(start_ms, end_ms),
        "-f"@,
        selector(tier),
        "--merge-output-format"@,
        extension_text(container),
        "-o"@,
        dest,
        url,
    ]
}

pub open spec fn video_args(v: LocalVideo) -> Seq<Seq<char>> {
    match v {
        LocalVideo::Keep => Seq::empty(),
        LocalVideo::ScaleTo(h) => seq!["-vf"@, "scale=-2:"@ + decimal(h as nat)],
        LocalVideo::Drop => seq!["-vn"@],
    }
}

/// Codecs for a clip cut from a local file: open codecs for WebM, H.264 and AAC otherwise.
pub open spec fn clip_profile(c: ContainerFormat) -> Seq<Seq<char>> {
    if c == ContainerFormat::Webm {
        seq!["-c:v"@, "libvpx-vp9"@, "-c:a"@, "libopus"@]
    } else {
        seq!["-c:v"@, "libx264"@, "-preset"@, "fast"@, "-c:a"@, "aac"@]
    }
}

pub open spec fn local_args(
    source: Seq<char>,
    start_ms: nat,
    end_ms: nat,
    tier: QualityTier,
    container: ContainerFormat,
    dest: Seq<char>,
) -> Seq<Seq<char>> {
    seq!["-y"@, "-ss"@, seconds_text(start_ms), "-to"@, seconds_text(end_ms), "-i"@, source]
        + video_args(local_video_of(tier)) + clip_profile(container) + seq![dest]
}

/// Codecs for converting a fetched stream to H.264 and AAC, on the platform's own encoder.
pub open spec fn reencode_profile(p: Platform) -> Seq<Seq<char>> {
    match p {
        Platform::MacOs => seq!["-c:v"@, "h264_videotoolbox"@, "-b:v"@, "8M"@, "-c:a"@, "aac"@],
        _ => seq!["-c:v"@, "libx264"@, "-preset"@, "fast"@, "-crf"@, "20"@, "-c:a"@, "aac"@],
    }
}

pub open spec fn reencode_args(source: Seq<char>, dest: Seq<char>, p: Platform) -> Seq<
    Seq<char>,
> {
    seq!["-y"@, "-i"@, source] + reencode_profile(p) + seq![dest]
}

/// Characters a file name may not hold on some platform.
pub open spec fn is_reserved(c: char) -> bool {
    c == '/' || c == '\\' || c == ':' || c == '*' || c == '?' || c == '"' || c == '<' || c
        == '>' || c == '|'
}

/// `title` with each reserved character replaced by `_`.
pub open spec fn safe_title(title: Seq<char>) -> Seq<char> {
    title.map_values(|c: char| if is_reserved(c) { '_' } else { c })
}

/// The name of the clip file: `<title>_clip_<epoch>.<extension>`.
pub open spec fn clip_name(title: Seq<char>, epoch: nat, c: ContainerFormat) -> Seq<char> {
    safe_title(title) + "_clip_"@ + decimal(epoch) + "."@ + extension_text(c)
}

/// The name of the file a job writes, from the title, the time the job starts (seconds
/// since the epoch) and the container.
pub fn clip_file_name(title: &str, epoch: u64, container: ContainerFormat) -> (r: String)
    ensures
        r@ == clip_name(title@, epoch as nat, container),
{
    let n = title.unicode_len();
    let mut r = String::new();
    let mut i: usize = 0;
    proof {
        reveal_strlit("_");
    }
    while i < n
        invariant
            n == title@.len(),
            i <= n,
            r@ == safe_title(title@.take(i as int)),
            "_"@ == seq!['_'],
        decreases n - i,
    {
        let c = title.get_char(i);
        let ghost before = r@;
        if c == '/' || c == '\\' || c == ':' || c == '*' || c == '?' || c == '"' || c == '<' || c
            == '>' || c == '|' {
            r.append("_");
        } else {
            let one = title.substring_char(i, i + 1);
            assert(one@ =~= seq![c]);
            r.append(one);
        }
        i = i + 1;
        assert(r@ =~= safe_title(title@.take(i as int)));
    }
    assert(title@.take(n as int) =~= title@);
    r.append("_clip_");
    r.append(decimal_text(epoch).as_str());
    r.append(".");
    r.append(container.extension().as_str());
    r
}

impl ContainerFormat {
    pub fn extension(self) -> (r: String)
        ensures
            r@ == extension_text(self),
    {
        match self {
            ContainerFormat::Mp4 => "mp4".to_owned(),
            ContainerFormat::Mkv => "mkv".to_owned(),
            ContainerFormat::Mov => "mov".to_owned(),
            ContainerFormat::Webm => "webm".to_owned(),
            ContainerFormat::Avi => "avi".to_owned(),
        }
    }

    pub fn from_extension(s: &str) -> (r: Option<ContainerFormat>)
        ensures
            r == container_named(s@),
    {
        if same_text(s, "mp4") {
            Some(ContainerFormat::Mp4)
        } else if same_text(s, "mkv") {
            Some(ContainerFormat::Mkv)
        } else if same_text(s, "mov") {
            Some(ContainerFormat::Mov)
        } else if same_text(s, "webm") {
            Some(ContainerFormat::Webm)
        } else if same_text(s, "avi") {
            Some(ContainerFormat::Avi)
        } else {
            None
        }
    }
}

fn push_text(v: &mut Vec<String>, s: &str)
    ensures
        texts(final(v)@) == texts(old(v)@).push(s@),
{
    v.push(s.to_owned());
    assert(texts(v@) =~= texts(old(v)@).push(s@));
}

fn push_string(v: &mut Vec<String>, s: String)
    ensures
        texts(final(v)@) == texts(old(v)@).push(s@),
{
    let ghost sv = s@;
    v.push(s);
    assert(texts(v@) =~= texts(old(v)@).push(sv));
}

/// `ms` as seconds with three decimals.
pub fn seconds_arg(ms: u64) -> (r: String)
    ensures
        r@ == seconds_text(ms as nat),
{
    let mut r = decimal_text(ms / 1000);
    r.append(".");
    r.append(digit_text((ms % 1000) / 100));
    r.append(digit_text((ms % 100) / 10));
    r.append(digit_text(ms % 10));
    assert(r@ =~= seconds_text(ms as nat));
    r
}

pub fn section_arg(start_ms: u64, end_ms: u64) -> (r: String)
    ensures
        r@ == section(start_ms as nat, end_ms as nat),
{
    let mut r = "*".to_owned();
    r.append(seconds_arg(start_ms).as_str());
    r.append("-");
    r.append(seconds_arg(end_ms).as_str());
    r
}

/// The downloader run that fetches `start..end` of `url` at `tier` into `dest`.
pub fn fetch_invocation(
    url: &str,
    start_ms: u64,
    end_ms: u64,
    tier: QualityTier,
    container: ContainerFormat,
    dest: &str,
) -> (r: Invocation)
    ensures
        r.tool == Tool::Downloader,
        texts(r.args@) == fetch_args(
            url@,
            start_ms as nat,
            end_ms as nat,
            tier,
            container,
            dest@,
        ),
{
    let mut a: Vec<String> = Vec::new();
    push_text(&mut a, "--newline");
    push_text(&mut a, "--progress-template");
    push_text(
        &mut a,
        "download:PROGRESS|%(progress._percent_str)s|%(progress._speed_str)s|%(progress._eta_str)s|%(progress._total_bytes_str)s",
    );
    push_text(&mut a, "--download-sections");
    push_string(&mut a, section_arg(start_ms, end_ms));
    push_text(&mut a, "-f");
    push_string(&mut a, tier.source_selector());
    push_text(&mut a, "--merge-output-format");
    push_string(&mut a, container.extension());
    push_text(&mut a, "-o");
    push_text(&mut a, dest);
    push_text(&mut a, url);
    assert(texts(a@) =~= fetch_args(url@, start_ms as nat, end_ms as nat, tier, container, dest@));
    Invocation { tool: Tool::Downloader, args: a }
}

/// The encoder run that cuts `start..end` of the local file `source` into `dest`.
pub fn local_invocation(
    source: &str,
    start_ms: u64,
    end_ms: u64,
    tier: QualityTier,
    container: ContainerFormat,
    dest: &str,
) -> (r: Invocation)
    ensures
        r.tool == Tool::Encoder,
        texts(r.args@) == local_args(
            source@,
            start_ms as nat,
            end_ms as nat,
            tier,
            container,
            dest@,
        ),
{
    let mut a: Vec<String> = Vec::new();
    push_text(&mut a, "-y");
    push_text(&mut a, "-ss");
    push_string(&mut a, seconds_arg(start_ms));
    push_text(&mut a, "-to");
    push_string(&mut a, seconds_arg(end_ms));
    push_text(&mut a, "-i");
    push_text(&mut a, source);
    let ghost head = texts(a@);
    match tier.local_video() {
        LocalVideo::Keep => {},
        LocalVideo::ScaleTo(h) => {
            push_text(&mut a, "-vf");
            let mut f = "scale=-2:".to_owned();
            f.append(decimal_text(h as u64).as_str());
            push_string(&mut a, f);
        },
        LocalVideo::Drop => {
            push_text(&mut a, "-vn");
        },
    }
    assert(texts(a@) =~= head + video_args(local_video_of(tier)));
    let ghost head = texts(a@);
    if container == ContainerFormat::Webm {
        push_text(&mut a, "-c:v");
        push_text(&mut a, "libvpx-vp9");
        push_text(&mut a, "-c:a");
        push_text(&mut a, "libopus");
    } else {
        push_text(&mut a, "-c:v");
        push_text(&mut a, "libx264");
        push_text(&mut a, "-preset");
        push_text(&mut a, "fast");
        push_text(&mut a, "-c:a");
        push_text(&mut a, "aac");
    }
    assert(texts(a@) =~= head + clip_profile(container));
    push_text(&mut a, dest);
    assert(texts(a@) =~= local_args(
        source@,
        start_ms as nat,
        end_ms as nat,
        tier,
        container,
        dest@,
    ));
    Invocation { tool: Tool::Encoder, args: a }
}

/// The encoder run that converts the fetched file `source` into `dest`.
pub fn reencode_invocation(source: &str, dest: &str, platform: Platform) -> (r: Invocation)
    ensures
        r.tool == Tool::Encoder,
        texts(r.args@) == reencode_args(source@, dest@, platform),
{
    let mut a: Vec<String> = Vec::new();
    push_text(&mut a, "-y");
    push_text(&mut a, "-i");
    push_text(&mut a, source);
    let ghost head = texts(a@);
    match platform {
        Platform::MacOs => {
            push_text(&mut a, "-c:v");
            push_text(&mut a, "h264_videotoolbox");
            push_text(&mut a, "-b:v");
            push_text(&mut a, "8M");
            push_text(&mut a, "-c:a");
            push_text(&mut a, "aac");
        },
        _ => {
            push_text(&mut a, "-c:v");
            push_text(&mut a, "libx264");
            push_text(&mut a, "-preset");
            push_text(&mut a, "fast");
            push_text(&mut a, "-crf");
            push_text(&mut a, "20");
            push_text(&mut a, "-c:a");
            push_text(&mut a, "aac");
        },
    }
    assert(texts(a@) =~= head + reencode_profile(platform));
    push_text(&mut a, dest);
    assert(texts(a@) =~= reencode_args(source@, dest@, platform));
    Invocation { tool: Tool::Encoder, args: a }
}

} // verus!
