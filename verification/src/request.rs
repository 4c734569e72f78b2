//! Building the outbound request payload.
//!
//! A batch of raw image buffers becomes a content array: one fixed text
//! instruction first, then one image entry per buffer, each base64-encoded
//! and wrapped in a data URL with detail level "high". The array is rendered
//! into the fixed JSON envelope (model "gpt-4o", token budget 600, a single
//! user message). Rendering emits the strings verbatim: the instruction is a
//! fixed literal and the data URLs hold only base64 characters, so no JSON
//! escaping is ever needed for the values this library produces.

use vstd::prelude::*;
use vstd::string::StringExecFns;

verus! {

/// The base64 text of a byte sequence under the standard alphabet with
/// padding. The encoding is a function of the bytes alone; its full
/// definition is left to the base64 crate.
pub uninterp spec fn base64_of(bytes: Seq<u8>) -> Seq<char>;

/// Whether the padded base64 text of `bytes` has a length that fits in
/// `usize` — the one machine limit on encoding.
pub open spec fn encodable(bytes: Seq<u8>) -> bool {
    4 * ((bytes.len() + 2) / 3) <= usize::MAX
}

/// Relies on base64's standard engine: `encode` returns the padded standard
/// encoding, a function of the input bytes alone, four characters for every
/// three input bytes rounded up; it panics only when that length overflows
/// `usize`, which the precondition rules out.
#[verifier::external_body]
fn base64_encode(bytes: &Vec<u8>) -> (r: String)
    requires
        encodable(bytes@),
    ensures
        r@ == base64_of(bytes@),
        r@.len() == 4 * ((bytes@.len() + 2) / 3),
{
    base64::Engine::encode(&base64::engine::general_purpose::STANDARD, bytes)
}

/// The data URL for one image buffer. The media type is asserted as JPEG
/// for every buffer, whatever the bytes hold.
pub open spec fn data_url_of(bytes: Seq<u8>) -> Seq<char> {
    "data:image/jpeg;base64,"@ + base64_of(bytes)
}

/// Builds the data URL for one image buffer.
pub fn data_url(image: &Vec<u8>) -> (r: String)
    requires
        encodable(image@),
    ensures
        r@ == data_url_of(image@),
{
    let mut r = String::from_str("data:image/jpeg;base64,");
    let encoded = base64_encode(image);
    r.append(encoded.as_str());
    r
}

/// One entry of the request's content array: either the fixed instruction
/// text or one image's data URL with its detail flag.
pub enum RequestContent {
    Text { text: String },
    ImageUrl { url: String, detail: String },
}

/// The fixed instruction sent ahead of every batch.
pub open spec fn instruction() -> Seq<char> {
    "List all Japanese sentences in these images, separated by a newline. Say nothing else."@
}

/// Builds the content array for one batch: the instruction first, then one
/// image entry per buffer, in the buffers' order.
pub fn build_content(images: &Vec<Vec<u8>>) -> (r: Vec<RequestContent>)
    requires
        forall|i: int| 0 <= i < images@.len() ==> encodable(#[trigger] images@[i]@),
    ensures
        r@.len() == images@.len() + 1,
        r@[0] is Text,
        r@[0]->Text_text@ == instruction(),
        forall|i: int|
            1 <= i <= images@.len() ==> (#[trigger] r@[i]) is ImageUrl
                && r@[i]->ImageUrl_url@ == data_url_of(images@[i - 1]@)
                && r@[i]->ImageUrl_detail@ == "high"@,
{
    let mut r: Vec<RequestContent> = Vec::new();
    let text = String::from_str(
        "List all Japanese sentences in these images, separated by a newline. Say nothing else.",
    );
    r.push(RequestContent::Text { text });
    let mut i: usize = 0;
    while i < images.len()
        invariant
            i <= images@.len(),
            r@.len() == i + 1,
            r@[0] is Text,
            r@[0]->Text_text@ == instruction(),
            forall|j: int| 0 <= j < images@.len() ==> encodable(#[trigger] images@[j]@),
            forall|j: int|
                1 <= j <= i ==> (#[trigger] r@[j]) is ImageUrl
                    && r@[j]->ImageUrl_url@ == data_url_of(images@[j - 1]@)
                    && r@[j]->ImageUrl_detail@ == "high"@,
        decreases images@.len() - i,
    {
        let url = data_url(&images[i]);
        let detail = String::from_str("high");
        r.push(RequestContent::ImageUrl { url, detail });
        i += 1;
    }
    r
}

/// The JSON text of one content entry, values emitted verbatim.
pub open spec fn render_item(c: RequestContent) -> Seq<char> {
    match c {
        RequestContent::Text { text } => "{\"type\":\"text\",\"text\":\""@ + text@ + "\"}"@,
        RequestContent::ImageUrl { url, detail } => "{\"type\":\"image_url\",\"image_url\":{\"url\":\""@
            + url@ + "\",\"detail\":\""@ + detail@ + "\"}}"@,
    }
}

/// The JSON text of a content array's entries, comma-separated.
pub open spec fn render_items(cs: Seq<RequestContent>) -> Seq<char>
    decreases cs.len(),
{
    if cs.len() == 0 {
        Seq::empty()
    } else if cs.len() == 1 {
        render_item(cs[0])
    } else {
        render_items(cs.drop_last()) + ","@ + render_item(cs.last())
    }
}

/// The whole request body: the fixed envelope around the content array.
pub open spec fn request_body_of(cs: Seq<RequestContent>) -> Seq<char> {
    "{\"model\":\"gpt-4o\",\"max_tokens\":600,\"messages\":[{\"role\":\"user\",\"content\":["@
        + render_items(cs) + "]}]}"@
}

/// Renders a content array into the request body text.
pub fn render_request(content: &Vec<RequestContent>) -> (r: String)
    ensures
        r@ == request_body_of(content@),
{
    let mut body = String::from_str(
        "{\"model\":\"gpt-4o\",\"max_tokens\":600,\"messages\":[{\"role\":\"user\",\"content\":[",
    );
    let ghost prefix: Seq<char> =
        "{\"model\":\"gpt-4o\",\"max_tokens\":600,\"messages\":[{\"role\":\"user\",\"content\":["@;
    let mut i: usize = 0;
    proof {
        assert(content@.take(0) =~= Seq::<RequestContent>::empty());
        assert(prefix + render_items(content@.take(0)) =~= prefix);
    }
    while i < content.len()
        invariant
            i <= content@.len(),
            body@ == prefix + render_items(content@.take(i as int)),
        decreases content@.len() - i,
    {
        if i > 0 {
            body.append(",");
        }
        match &content[i] {
            RequestContent::Text { text } => {
                body.append("{\"type\":\"text\",\"text\":\"");
                body.append(text.as_str());
                body.append("\"}");
            },
            RequestContent::ImageUrl { url, detail } => {
                body.append("{\"type\":\"image_url\",\"image_url\":{\"url\":\"");
                body.append(url.as_str());
                body.append("\",\"detail\":\"");
                body.append(detail.as_str());
                body.append("\"}}");
            },
        }
        proof {
            let cs = content@.take(i as int + 1);
            assert(cs.drop_last() =~= content@.take(i as int));
            assert(cs.last() == content@[i as int]);
            assert(body@ =~= prefix + render_items(cs));
        }
        i += 1;
    }
    proof {
        assert(content@.take(content@.len() as int) =~= content@);
    }
    body.append("]}]}");
    body
}

/// The rendered text entry that carries the fixed instruction.
pub open spec fn text_item() -> Seq<char> {
    "{\"type\":\"text\",\"text\":\""@ + instruction() + "\"}"@
}

/// The rendered image entry for one buffer.
pub open spec fn image_item_of(bytes: Seq<u8>) -> Seq<char> {
    "{\"type\":\"image_url\",\"image_url\":{\"url\":\""@ + data_url_of(bytes) + "\",\"detail\":\""@
        + "high"@ + "\"}}"@
}

/// The rendered image entries of a batch, each preceded by the comma that
/// separates it from the entry before it (the instruction entry at least).
pub open spec fn image_items_of(imgs: Seq<Seq<u8>>) -> Seq<char>
    decreases imgs.len(),
{
    if imgs.len() == 0 {
        Seq::empty()
    } else {
        image_items_of(imgs.drop_last()) + ","@ + image_item_of(imgs.last())
    }
}

/// The whole request body for a batch of image byte sequences.
pub open spec fn body_for_images(imgs: Seq<Seq<u8>>) -> Seq<char> {
    "{\"model\":\"gpt-4o\",\"max_tokens\":600,\"messages\":[{\"role\":\"user\",\"content\":["@
        + text_item() + image_items_of(imgs) + "]}]}"@
}

/// The byte sequences held by a vector of buffers.
pub open spec fn byte_views(images: Seq<Vec<u8>>) -> Seq<Seq<u8>> {
    images.map_values(|v: Vec<u8>| v@)
}

/// A content array of the shape `build_content` produces renders to the
/// instruction entry followed by the batch's image entries.
proof fn lemma_render_content(cs: Seq<RequestContent>, imgs: Seq<Seq<u8>>)
    requires
        cs.len() == imgs.len() + 1,
        cs[0] is Text,
        cs[0]->Text_text@ == instruction(),
        forall|i: int|
            1 <= i <= imgs.len() ==> (#[trigger] cs[i]) is ImageUrl
                && cs[i]->ImageUrl_url@ == data_url_of(imgs[i - 1])
                && cs[i]->ImageUrl_detail@ == "high"@,
    ensures
        render_items(cs) == text_item() + image_items_of(imgs),
    decreases imgs.len(),
{
    if imgs.len() == 0 {
        assert(render_items(cs) == render_item(cs[0]));
        assert(text_item() + image_items_of(imgs) =~= text_item());
    } else {
        let cs0 = cs.drop_last();
        let im0 = imgs.drop_last();
        assert(cs0[0] == cs[0]);
        assert(forall|i: int| 1 <= i <= im0.len() ==> #[trigger] cs0[i] == cs[i]);
        lemma_render_content(cs0, im0);
        assert(cs.last() == cs[imgs.len() as int]);
        assert(imgs.last() == imgs[imgs.len() - 1]);
        assert(render_item(cs.last()) == image_item_of(imgs.last()));
        assert(render_items(cs) =~= text_item() + image_items_of(imgs));
    }
}

/// Builds the full request body for one batch of image buffers: the fixed
/// envelope, the instruction entry, then one image entry per buffer in the
/// buffers' order.
pub fn build_request_body(images: &Vec<Vec<u8>>) -> (r: String)
    requires
        forall|i: int| 0 <= i < images@.len() ==> encodable(#[trigger] images@[i]@),
    ensures
        r@ == body_for_images(byte_views(images@)),
{
    let content = build_content(images);
    let body = render_request(&content);
    proof {
        let bv = byte_views(images@);
        assert(forall|i: int| 0 <= i < bv.len() ==> #[trigger] bv[i] == images@[i]@);
        lemma_render_content(content@, bv);
        assert(body@ =~= body_for_images(bv));
    }
    body
}

/// The authorization header value for a request.
pub fn bearer_header(token: &str) -> (r: String)
    ensures
        r@ == "Bearer "@ + token@,
{
    let mut r = String::from_str("Bearer ");
    r.append(token);
    r
}

} // verus!
