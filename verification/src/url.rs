//! Tile URL construction and response interpretation. A tile URL is the host,
//! the frame path, then `size/zoom/x/y/colorCode/smooth_snow.png`, each
//! segment separated by a slash; the coordinate order is `x` before `y`.

use vstd::prelude::*;
use vstd::string::StringExecFns;
use crate::dec::{dec_seq, push_dec};
use crate::error::FetchError;
use crate::manifest::{AvailableData, Frame};
use crate::params::{color_code, RequestArguments, TileView};

verus! {

/// The digit an option flag contributes to the URL's options token.
pub open spec fn flag_seq(b: bool) -> Seq<char> {
    if b {
        "1"@
    } else {
        "0"@
    }
}

/// The options token: the smoothing flag, an underscore, then the snow flag.
pub open spec fn options_seq(smooth: bool, snow: bool) -> Seq<char> {
    flag_seq(smooth) + "_"@ + flag_seq(snow)
}

/// The full tile URL for a host, a frame path and a set of tile arguments.
pub open spec fn tile_url_seq(host: Seq<char>, path: Seq<char>, t: TileView) -> Seq<char> {
    host + "/"@ + path + "/"@ + dec_seq(t.size as nat) + "/"@ + dec_seq(t.zoom as nat) + "/"@
        + dec_seq(t.x as nat) + "/"@ + dec_seq(t.y as nat) + "/"@ + dec_seq(
        color_code(t.color) as nat,
    ) + "/"@ + options_seq(t.smooth, t.snow) + ".png"@
}

/// Law: URL construction is deterministic — equal hosts, paths and arguments
/// give character-for-character equal URLs.
pub proof fn lemma_tile_url_deterministic(
    host1: Seq<char>,
    path1: Seq<char>,
    t1: TileView,
    host2: Seq<char>,
    path2: Seq<char>,
    t2: TileView,
)
    requires
        host1 == host2,
        path1 == path2,
        t1 == t2,
    ensures
        tile_url_seq(host1, path1, t1) == tile_url_seq(host2, path2, t2),
{
}

fn flag_str(b: bool) -> (r: &'static str)
    ensures
        r@ == flag_seq(b),
{
    if b {
        "1"
    } else {
        "0"
    }
}

/// Builds the tile URL for `host`, the frame path `path` and `args`.
pub fn build_tile_url(host: &str, path: &str, args: &RequestArguments) -> (r: String)
    ensures
        r@ == tile_url_seq(host@, path@, args@),
{
    let mut url = String::from_str(host);
    url.append("/");
    url.append(path);
    url.append("/");
    push_dec(&mut url, args.size());
    url.append("/");
    push_dec(&mut url, args.zoom());
    url.append("/");
    push_dec(&mut url, args.x());
    url.append("/");
    push_dec(&mut url, args.y());
    url.append("/");
    push_dec(&mut url, u32::from(args.color()));
    url.append("/");
    url.append(flag_str(args.smooth()));
    url.append("_");
    url.append(flag_str(args.snow()));
    url.append(".png");
    proof {
        assert(url@ =~= tile_url_seq(host@, path@, args@));
    }
    url
}

/// Builds the URL a tile request for `frame` with `args` goes to: the
/// manifest's host followed by the frame's path and the argument segments.
pub fn tile_url(maps: &AvailableData, frame: &Frame, args: &RequestArguments) -> (r: String)
    ensures
        r@ == tile_url_seq(maps.spec_host(), frame.path@, args@),
{
    build_tile_url(maps.host(), frame.path.as_str(), args)
}

/// Interprets a tile response: a status of 200 hands the body back verbatim,
/// any other status is an HTTP error carrying that status.
pub fn tile_response(status: u16, body: Vec<u8>) -> (r: Result<Vec<u8>, FetchError>)
    ensures
        status == 200 ==> (r matches Ok(b) && b@ == body@),
        status != 200 ==> (r matches Err(e) && e matches FetchError::Http(s) && s == status),
{
    if status == 200 {
        Ok(body)
    } else {
        Err(FetchError::Http(status))
    }
}

/// The fixed discovery URL the manifest is fetched from.
pub fn manifest_url() -> (r: &'static str)
    ensures
        r@ == "https://api.rainviewer.com/public/weather-maps.json"@,
{
    "https://api.rainviewer.com/public/weather-maps.json"
}

} // verus!
