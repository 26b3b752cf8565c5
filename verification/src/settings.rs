//! Persisted window geometry: logical position, logical size and the
//! maximized flag, together with its byte encoding.
//!
//! The blob holds the four coordinates in the fixed-width decimal format of
//! [`crate::codec`], separated by single spaces, followed by one flag byte
//! (`0` or `1`). Decoding accepts exactly the well-formed blobs whose
//! coordinates are within [`crate::geom::COORD_LIMIT`], so a saved blob is
//! always recovered as the settings it was written from.

use vstd::prelude::*;

use crate::codec::{
    lemma_encode_i64_len, lemma_parse_encoded, parse_i64, push_i64, spec_encode_i64,
    spec_parse_i64, BYTE_ONE, BYTE_SPACE, BYTE_ZERO,
};
use crate::geom::{coord_ok, spec_clamp, Pos2, Rect, Vec2};

verus! {

/// Length in bytes of an encoded [`WindowSettings`] blob.
pub const SETTINGS_BLOB_LEN: u64 = 49;

/// Restored or to-be-saved window geometry, in logical units.
#[derive(Clone, Copy, Debug, PartialEq, Eq, Structural)]
pub struct WindowSettings {
    /// Logical position of the window's outer top-left corner.
    pub pos: Pos2,
    /// Logical size of the window's inner content area.
    pub size: Vec2,
    /// Whether the window was maximized when saved.
    pub maximized: bool,
}

impl WindowSettings {
    /// All coordinates are within bounds.
    pub open spec fn ok(self) -> bool {
        self.pos.ok() && self.size.ok()
    }

    /// The inner size the settings ask for.
    pub fn inner_size_points(&self) -> (r: Vec2)
        ensures
            r == self.size,
    {
        self.size
    }

    /// Clamp the restored size so it does not exceed `max_size` on either
    /// axis; a size already within the bound is kept exactly.
    pub fn clamp_size_to_sane_values(&mut self, max_size: Vec2)
        ensures
            final(self).size.x == if old(self).size.x <= max_size.x {
                old(self).size.x
            } else {
                max_size.x
            },
            final(self).size.y == if old(self).size.y <= max_size.y {
                old(self).size.y
            } else {
                max_size.y
            },
            final(self).pos == old(self).pos,
            final(self).maximized == old(self).maximized,
    {
        self.size = self.size.min(max_size);
    }

    /// Clamp the restored position so the window's origin stays within the
    /// reachable monitor area `bounds`: on each axis between the area's
    /// start and the last origin at which the window still fits (the area's
    /// start winning when the window is larger than the area).
    pub fn clamp_position_to_monitors(&mut self, bounds: Rect)
        requires
            bounds.ok(),
            old(self).ok(),
        ensures
            final(self).pos.x == spec_clamp(
                old(self).pos.x as int,
                bounds.min.x as int,
                bounds.max.x - old(self).size.x,
            ),
            final(self).pos.y == spec_clamp(
                old(self).pos.y as int,
                bounds.min.y as int,
                bounds.max.y - old(self).size.y,
            ),
            final(self).size == old(self).size,
            final(self).maximized == old(self).maximized,
    {
        let x = crate::geom::clamp_i64(self.pos.x, bounds.min.x, bounds.max.x - self.size.x);
        let y = crate::geom::clamp_i64(self.pos.y, bounds.min.y, bounds.max.y - self.size.y);
        self.pos = Pos2 { x, y };
    }
}

/// The bytes a [`WindowSettings`] value is persisted as.
pub open spec fn spec_encode_settings(ws: WindowSettings) -> Seq<u8> {
    spec_encode_i64(ws.pos.x as int) + seq![BYTE_SPACE] + spec_encode_i64(ws.pos.y as int)
        + seq![BYTE_SPACE] + spec_encode_i64(ws.size.x as int) + seq![BYTE_SPACE]
        + spec_encode_i64(ws.size.y as int) + seq![BYTE_SPACE] + seq![
        if ws.maximized {
            BYTE_ONE
        } else {
            BYTE_ZERO
        },
    ]
}

/// What decoding a settings blob yields: the settings, exactly when the blob
/// has the right length, separators and flag byte, all four numbers parse,
/// and every coordinate is within bounds.
pub open spec fn spec_decode_settings(b: Seq<u8>) -> Option<WindowSettings> {
    if b.len() == SETTINGS_BLOB_LEN && b[11] == BYTE_SPACE && b[23] == BYTE_SPACE && b[35]
        == BYTE_SPACE && b[47] == BYTE_SPACE && (b[48] == BYTE_ZERO || b[48] == BYTE_ONE) {
        match (spec_parse_i64(b, 0), spec_parse_i64(b, 12), spec_parse_i64(b, 24), spec_parse_i64(
            b,
            36,
        )) {
            (Some(x), Some(y), Some(w), Some(h)) => {
                if coord_ok(x) && coord_ok(y) && coord_ok(w) && coord_ok(h) {
                    Some(
                        WindowSettings {
                            pos: Pos2 { x: x as i64, y: y as i64 },
                            size: Vec2 { x: w as i64, y: h as i64 },
                            maximized: b[48] == BYTE_ONE,
                        },
                    )
                } else {
                    None
                }
            },
            _ => None,
        }
    } else {
        None
    }
}

/// Encode settings into their persisted blob.
pub fn encode_settings(ws: &WindowSettings) -> (r: Vec<u8>)
    requires
        ws.ok(),
    ensures
        r@ == spec_encode_settings(*ws),
{
    let mut out: Vec<u8> = Vec::new();
    push_i64(&mut out, ws.pos.x);
    out.push(BYTE_SPACE);
    push_i64(&mut out, ws.pos.y);
    out.push(BYTE_SPACE);
    push_i64(&mut out, ws.size.x);
    out.push(BYTE_SPACE);
    push_i64(&mut out, ws.size.y);
    out.push(BYTE_SPACE);
    out.push(if ws.maximized { BYTE_ONE } else { BYTE_ZERO });
    proof {
        assert(out@ =~= spec_encode_settings(*ws));
    }
    out
}

/// Decode a persisted blob; returns the settings exactly on well-formed
/// blobs with in-bounds coordinates, and nothing otherwise.
pub fn decode_settings(b: &Vec<u8>) -> (r: Option<WindowSettings>)
    ensures
        r == spec_decode_settings(b@),
{
    if b.len() != SETTINGS_BLOB_LEN as usize {
        return None;
    }
    if b[11] != BYTE_SPACE || b[23] != BYTE_SPACE || b[35] != BYTE_SPACE || b[47] != BYTE_SPACE {
        return None;
    }
    let flag = b[48];
    if flag != BYTE_ZERO && flag != BYTE_ONE {
        return None;
    }
    let x = match parse_i64(b, 0) {
        Some(v) => v,
        None => {
            return None;
        },
    };
    let y = match parse_i64(b, 12) {
        Some(v) => v,
        None => {
            return None;
        },
    };
    let w = match parse_i64(b, 24) {
        Some(v) => v,
        None => {
            return None;
        },
    };
    let h = match parse_i64(b, 36) {
        Some(v) => v,
        None => {
            return None;
        },
    };
    if x < -crate::geom::COORD_LIMIT || x > crate::geom::COORD_LIMIT || y
        < -crate::geom::COORD_LIMIT || y > crate::geom::COORD_LIMIT || w
        < -crate::geom::COORD_LIMIT || w > crate::geom::COORD_LIMIT || h
        < -crate::geom::COORD_LIMIT || h > crate::geom::COORD_LIMIT {
        return None;
    }
    Some(
        WindowSettings {
            pos: Pos2 { x, y },
            size: Vec2 { x: w, y: h },
            maximized: flag == BYTE_ONE,
        },
    )
}

/// Saving window settings and loading them back gives the same settings:
/// decoding the encoded blob of any in-bounds settings value yields exactly
/// that value.
pub proof fn lemma_settings_roundtrip(ws: WindowSettings)
    requires
        ws.ok(),
    ensures
        spec_decode_settings(spec_encode_settings(ws)) == Some(ws),
{
    let b = spec_encode_settings(ws);
    let e0 = spec_encode_i64(ws.pos.x as int);
    let e1 = spec_encode_i64(ws.pos.y as int);
    let e2 = spec_encode_i64(ws.size.x as int);
    let e3 = spec_encode_i64(ws.size.y as int);
    lemma_encode_i64_len(ws.pos.x as int);
    lemma_encode_i64_len(ws.pos.y as int);
    lemma_encode_i64_len(ws.size.x as int);
    lemma_encode_i64_len(ws.size.y as int);
    assert(b.len() == SETTINGS_BLOB_LEN);
    assert(b.subrange(0, 11) =~= e0);
    assert(b.subrange(12, 23) =~= e1);
    assert(b.subrange(24, 35) =~= e2);
    assert(b.subrange(36, 47) =~= e3);
    lemma_parse_encoded(b, 0, ws.pos.x as int);
    lemma_parse_encoded(b, 12, ws.pos.y as int);
    lemma_parse_encoded(b, 24, ws.size.x as int);
    lemma_parse_encoded(b, 36, ws.size.y as int);
    assert(b[11] == BYTE_SPACE);
    assert(b[23] == BYTE_SPACE);
    assert(b[35] == BYTE_SPACE);
    assert(b[47] == BYTE_SPACE);
    assert(b[48] == if ws.maximized {
        BYTE_ONE
    } else {
        BYTE_ZERO
    });
}

} // verus!
