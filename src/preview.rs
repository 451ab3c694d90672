use crate::bitmap::Bitmap;
use crate::codec::{
    base64_standard, data_url_payload, describe_image_error, encode_base64, encode_jpeg,
    jpeg_data_url, jpeg_data_url_from_base64, jpeg_encoded, lemma_data_url_payload,
    jpeg_size_supported, nearest_resized, resample_fits, resize_nearest,
};
use crate::error::PreviewError;
use crate::fit::{dimensions_valid, fit_dimensions, fit_height, fit_width, lemma_fit_within_box};
use vstd::prelude::*;

verus! {

/// A finished preview: an inline JPEG data URL and the size of the image in it.
#[derive(Debug)]
pub struct PreviewCaptureResult {
    pub image_data: String,
    pub width: u32,
    pub height: u32,
}

/// The JPEG bytes of the preview of `frame` fitted into the box: the frame is
/// resampled (nearest neighbour) to the fitted size and encoded at `quality`.
pub open spec fn preview_jpeg(frame: Bitmap, target_width: nat, target_height: nat, quality: u8) -> Seq<
    u8,
> {
    let w = fit_width(frame.width as nat, frame.height as nat, target_width, target_height);
    let h = fit_height(frame.width as nat, frame.height as nat, target_width, target_height);
    jpeg_encoded(
        nearest_resized(frame.pixels@, frame.width as nat, frame.height as nat, w, h),
        w,
        h,
        quality,
    )
}

/// The payload behind the scheme marker of a preview's data URL is the base-64
/// text of a JPEG encoding of an image whose size is exactly the fitted size
/// that the preview reports.
pub proof fn lemma_preview_payload(frame: Bitmap, target_width: nat, target_height: nat, quality: u8)
    ensures
        ({
            let w = fit_width(frame.width as nat, frame.height as nat, target_width, target_height);
            let h = fit_height(frame.width as nat, frame.height as nat, target_width, target_height);
            data_url_payload(
                jpeg_data_url(
                    base64_standard(preview_jpeg(frame, target_width, target_height, quality)),
                ),
            ) == base64_standard(
                jpeg_encoded(
                    nearest_resized(frame.pixels@, frame.width as nat, frame.height as nat, w, h),
                    w,
                    h,
                    quality,
                ),
            )
        }),
{
    lemma_data_url_payload(
        base64_standard(preview_jpeg(frame, target_width, target_height, quality)),
    );
}

/// Packs encoded JPEG bytes of a `width` x `height` image into a preview: the
/// bytes are base-64 encoded and carried by an inline JPEG data URL.
pub fn package_preview(jpeg: &Vec<u8>, width: u32, height: u32) -> (r: PreviewCaptureResult)
    ensures
        r.image_data@ == jpeg_data_url(base64_standard(jpeg@)),
        r.width == width,
        r.height == height,
{
    let payload = encode_base64(jpeg);
    let image_data = jpeg_data_url_from_base64(payload.as_str());
    PreviewCaptureResult { image_data, width, height }
}

/// Builds the preview of a captured frame: fits it into the
/// `target_width` x `target_height` box keeping its aspect ratio, resamples it
/// to that size, encodes it as JPEG at `quality` and packs the bytes into a data
/// URL. The returned size is the fitted one, not the box. A zero axis in the
/// frame or the box is refused; otherwise the request succeeds unless a fitted
/// side exceeds what the JPEG codec takes, which is an encoding error.
pub fn preview_from_frame(
    frame: &Bitmap,
    target_width: u32,
    target_height: u32,
    quality: u8,
) -> (r: Result<PreviewCaptureResult, PreviewError>)
    requires
        frame.wf(),
        dimensions_valid(
            frame.width as nat,
            frame.height as nat,
            target_width as nat,
            target_height as nat,
        ) ==> resample_fits(
            frame.width as nat,
            fit_width(
                frame.width as nat,
                frame.height as nat,
                target_width as nat,
                target_height as nat,
            ),
            fit_height(
                frame.width as nat,
                frame.height as nat,
                target_width as nat,
                target_height as nat,
            ),
        ),
    ensures
        r is Ok <==> (dimensions_valid(
            frame.width as nat,
            frame.height as nat,
            target_width as nat,
            target_height as nat,
        ) && jpeg_size_supported(
            fit_width(
                frame.width as nat,
                frame.height as nat,
                target_width as nat,
                target_height as nat,
            ),
            fit_height(
                frame.width as nat,
                frame.height as nat,
                target_width as nat,
                target_height as nat,
            ),
        )),
        !dimensions_valid(
            frame.width as nat,
            frame.height as nat,
            target_width as nat,
            target_height as nat,
        ) <==> (r is Err && r->Err_0 is InvalidDimensions),
        r is Err ==> (r->Err_0 is InvalidDimensions || r->Err_0 is Encoding),
        r is Ok ==> ({
            let p = r->Ok_0;
            &&& p.width == fit_width(
                frame.width as nat,
                frame.height as nat,
                target_width as nat,
                target_height as nat,
            )
            &&& p.height == fit_height(
                frame.width as nat,
                frame.height as nat,
                target_width as nat,
                target_height as nat,
            )
            &&& p.image_data@ == jpeg_data_url(
                base64_standard(
                    preview_jpeg(*frame, target_width as nat, target_height as nat, quality),
                ),
            )
        }),
{
    let (width, height) = match fit_dimensions(
        frame.width,
        frame.height,
        target_width,
        target_height,
    ) {
        Ok(size) => size,
        Err(e) => {
            return Err(e);
        },
    };
    proof {
        lemma_fit_within_box(
            frame.width as nat,
            frame.height as nat,
            target_width as nat,
            target_height as nat,
        );
    }
    let scaled = resize_nearest(frame, width, height);
    match encode_jpeg(&scaled, quality) {
        Ok(jpeg) => Ok(package_preview(&jpeg, width, height)),
        Err(e) => Err(PreviewError::Encoding(describe_image_error(&e))),
    }
}

} // verus!
