use vstd::prelude::*;

verus! {

/// Every failure of a card request; each one is fatal for the request.
#[derive(Clone, Copy, PartialEq, Eq, Structural, Debug)]
pub enum CardError {
    /// The theme field does not parse to 0 or 1.
    BadTheme,
    /// The font asset bytes are not a parseable font.
    BadFont,
    /// The photo bytes do not decode to an image with positive dimensions.
    BadPhoto,
    /// The stamp asset bytes do not decode to an image.
    BadStamp,
    /// The measurement backdrop asset bytes do not decode to an image.
    BadBackdrop,
    /// A computed canvas dimension or an encoded buffer does not fit the
    /// machine's integer limits.
    TooLarge,
    /// The request body has fewer than five comma-separated fields.
    TooFewFields,
    /// The photo field is not valid standard base64.
    BadBase64,
}

} // verus!
