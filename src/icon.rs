use vstd::prelude::*;

verus! {

/// A raw icon image as a tray item sends it: `width` by `height` pixels,
/// four bytes each, in ARGB order with the alpha byte first.
pub struct IconPixmap {
    pub width: i32,
    pub height: i32,
    pub pixels: Vec<u8>,
}

/// What an `IconPixmap` holds, as plain values.
pub struct PixmapModel {
    pub width: i32,
    pub height: i32,
    pub pixels: Seq<u8>,
}

impl View for IconPixmap {
    type V = PixmapModel;

    open spec fn view(&self) -> PixmapModel {
        PixmapModel { width: self.width, height: self.height, pixels: self.pixels@ }
    }
}

impl Clone for IconPixmap {
    fn clone(&self) -> (r: Self)
        ensures
            r@ == self@,
    {
        IconPixmap { width: self.width, height: self.height, pixels: self.pixels.clone() }
    }
}

/// The RGBA bytes of an ARGB buffer: each whole group of four bytes
/// `a r g b` becomes `r g b a`; a trailing partial group is dropped.
pub open spec fn rgba_of(argb: Seq<u8>) -> Seq<u8> {
    Seq::new(
        (4 * (argb.len() / 4)) as nat,
        |j: int| argb[j - j % 4 + (j % 4 + 1) % 4],
    )
}

impl IconPixmap {
    /// The pixel buffer reordered from ARGB to RGBA, as the toolkit's
    /// image buffers want it.
    pub fn to_rgba(&self) -> (r: Vec<u8>)
        ensures
            r@ == rgba_of(self.pixels@),
    {
        let data = &self.pixels;
        let n: usize = data.len();
        let groups: usize = n / 4;
        let mut out: Vec<u8> = Vec::with_capacity(4 * groups);
        let mut p: usize = 0;
        while p < groups
            invariant
                n == data@.len(),
                groups == n / 4,
                p <= groups,
                out@.len() == 4 * p,
                forall|j: int| 0 <= j < 4 * p ==> #[trigger] out@[j] == rgba_of(data@)[j],
            decreases groups - p,
        {
            let b: usize = 4 * p;
            let a: u8 = data[b];
            let red: u8 = data[b + 1];
            let green: u8 = data[b + 2];
            let blue: u8 = data[b + 3];
            out.push(red);
            out.push(green);
            out.push(blue);
            out.push(a);
            p = p + 1;
            proof {
                assert forall|j: int| 0 <= j < 4 * p implies #[trigger] out@[j] == rgba_of(data@)[j] by {
                    if j >= 4 * (p - 1) {
                        assert(j - j % 4 == b);
                    }
                }
            }
        }
        assert(out@ =~= rgba_of(data@));
        out
    }
}

/// Where a tray item's icon comes from: a themed icon name, or a raw pixmap.
pub enum IconSource {
    Named(String),
    Pixmap(IconPixmap),
}

/// What an `IconSource` holds, as plain values.
pub enum IconModel {
    Named(Seq<char>),
    Pixmap(PixmapModel),
}

impl View for IconSource {
    type V = IconModel;

    open spec fn view(&self) -> IconModel {
        match self {
            IconSource::Named(s) => IconModel::Named(s@),
            IconSource::Pixmap(p) => IconModel::Pixmap(p@),
        }
    }
}

impl Clone for IconSource {
    fn clone(&self) -> (r: Self)
        ensures
            r@ == self@,
    {
        match self {
            IconSource::Named(s) => IconSource::Named(s.clone()),
            IconSource::Pixmap(p) => IconSource::Pixmap(p.clone()),
        }
    }
}

/// The view of an optional icon.
pub open spec fn icon_view(i: Option<IconSource>) -> Option<IconModel> {
    match i {
        Some(s) => Some(s@),
        None => None,
    }
}

/// The icon that a button shows for what a tray item advertises: a
/// non-empty icon name first, else the first of its pixmaps, else none.
pub open spec fn chosen_icon(name: Option<Seq<char>>, pixmaps: Option<Seq<PixmapModel>>) -> Option<IconModel> {
    if name is Some && name->0.len() > 0 {
        Some(IconModel::Named(name->0))
    } else if pixmaps is Some && pixmaps->0.len() > 0 {
        Some(IconModel::Pixmap(pixmaps->0[0]))
    } else {
        None
    }
}

/// The views of a list of pixmaps.
pub open spec fn pixmaps_view(p: Seq<IconPixmap>) -> Seq<PixmapModel> {
    p.map_values(|x: IconPixmap| x@)
}

impl IconSource {
    /// Picks the icon to show from an icon name and a list of pixmaps,
    /// as a tray item advertises them.
    pub fn pick(name: Option<String>, pixmaps: Option<Vec<IconPixmap>>) -> (r: Option<IconSource>)
        ensures
            icon_view(r) == chosen_icon(
                match name { Some(s) => Some(s@), None => None },
                match pixmaps { Some(v) => Some(pixmaps_view(v@)), None => None },
            ),
    {
        match name {
            Some(s) => {
                if !s.as_str().is_empty() {
                    return Some(IconSource::Named(s));
                }
            },
            None => {},
        }
        match pixmaps {
            Some(v) => {
                if v.len() > 0 {
                    let first = v[0].clone();
                    Some(IconSource::Pixmap(first))
                } else {
                    None
                }
            },
            None => None,
        }
    }
}

} // verus!
