//! Commands for the external cover-image renderer: the placement
//! decision and the exact command lines it is sent. Writing them to the
//! renderer process happens outside; the content is decided here.
use vstd::prelude::*;
use crate::strings::{spec_dec, u64_to_dec};

verus! {

/// Where the cover image is drawn, in character cells.
#[derive(Clone, Copy, Debug, PartialEq, Eq, Structural)]
pub struct Xywh {
    pub x: u32,
    pub y: u32,
    pub width: u32,
    pub height: u32,
}

/// The add command for the renderer: a one-line instruction placing the
/// image one cell above the given area, fitted to it.
pub open spec fn spec_cover_add_cmd(area: Xywh, url: Seq<char>) -> Seq<char> {
    "{\"action\":\"add\",\"scaler\":\"fit_contain\",\"identifier\":\"cover\",\"x\":"@ + spec_dec(
        area.x as int,
    ) + ",\"y\":"@ + spec_dec(area.y - 1) + ",\"width\":"@ + spec_dec(area.width as int)
        + ",\"height\":"@ + spec_dec(area.height as int) + ",\"path\":\""@ + url + "\"}\n"@
}

/// The command that draws a cover, or nothing when the area is too
/// small to show one. The area must leave room for the one-cell upward
/// shift the renderer needs.
pub fn cover_add_cmd(area: Xywh, url: &str) -> (r: Option<String>)
    requires
        area.y >= 1,
    ensures
        area.width <= 1 || area.height <= 1 ==> r is None,
        area.width > 1 && area.height > 1 ==> r is Some && r.unwrap()@ == spec_cover_add_cmd(
            area,
            url@,
        ),
{
    if area.width <= 1 || area.height <= 1 {
        return None;
    }
    let mut out: String = String::new();
    out.append("{\"action\":\"add\",\"scaler\":\"fit_contain\",\"identifier\":\"cover\",\"x\":");
    let xs: String = u64_to_dec(area.x as u64);
    out.append(xs.as_str());
    out.append(",\"y\":");
    let ys: String = u64_to_dec((area.y - 1) as u64);
    out.append(ys.as_str());
    out.append(",\"width\":");
    let ws: String = u64_to_dec(area.width as u64);
    out.append(ws.as_str());
    out.append(",\"height\":");
    let hs: String = u64_to_dec(area.height as u64);
    out.append(hs.as_str());
    out.append(",\"path\":\"");
    out.append(url);
    out.append("\"}\n");
    proof {
        assert(out@ =~= spec_cover_add_cmd(area, url@));
    }
    Some(out)
}

/// The command that removes the drawn cover.
pub fn cover_remove_cmd() -> (r: String)
    ensures
        r@ == "{\"action\": \"remove\", \"identifier\": \"cover\"}\n"@,
{
    proof {
        reveal_strlit("{\"action\": \"remove\", \"identifier\": \"cover\"}\n");
    }
    String::from_str("{\"action\": \"remove\", \"identifier\": \"cover\"}\n")
}

} // verus!
