//! The clipboard hand-off: on Linux the overlay exits after Copy, so it
//! passes the picture as PNG bytes to a small holder process of this same
//! binary, which keeps the clipboard until something else is copied.
use vstd::prelude::*;
use crate::codec::{image_decode, image_decoding, png_encode, png_encoding};
use crate::raster::Raster;

verus! {

/// PNG bytes of the picture, for the clipboard holder.
pub fn encode_png_in_memory(image: &Raster) -> (r: Result<Vec<u8>, String>)
    requires
        image.wf(),
    ensures
        r matches Ok(v) ==> png_encoding(image.width, image.height, image.pixels@) == Some(v@),
        r matches Err(msg) ==> png_encoding(image.width, image.height, image.pixels@) is None
            && msg@.subrange(0, 21) == "PNG encoding failed: "@,
{
    match png_encode(image.width, image.height, &image.pixels) {
        Ok(v) => Ok(v),
        Err(e) => {
            let mut msg = String::from_str("PNG encoding failed: ");
            msg.append(e.as_str());
            proof {
                reveal_strlit("PNG encoding failed: ");
                assert(msg@.subrange(0, 21) =~= "PNG encoding failed: "@);
            }
            Err(msg)
        },
    }
}

/// The picture the clipboard holder received on its standard input.
pub fn decode_clipboard_payload(png: &[u8]) -> (r: Result<Raster, String>)
    ensures
        png@.len() == 0 ==> (r matches Err(msg) && msg@ == "Clipboard holder received no image"@),
        png@.len() > 0 ==> match r {
            Ok(img) => img.wf() && image_decoding(png@) == Some((img.width, img.height, img.pixels@)),
            Err(msg) => image_decoding(png@) is None && msg@.subrange(0, 22) == "Clipboard PNG decode: "@,
        },
{
    if png.len() == 0 {
        return Err(String::from_str("Clipboard holder received no image"));
    }
    match image_decode(png) {
        Ok((width, height, pixels)) => Ok(Raster { width, height, pixels }),
        Err(e) => {
            let mut msg = String::from_str("Clipboard PNG decode: ");
            msg.append(e.as_str());
            proof {
                reveal_strlit("Clipboard PNG decode: ");
                assert(msg@.subrange(0, 22) =~= "Clipboard PNG decode: "@);
            }
            Err(msg)
        },
    }
}

} // verus!
