//! Client-side building blocks for a multimodal generative-language HTTP API:
//! the content-part codec, the request and response models, and the reader
//! that reassembles streamed events from transport chunks.

pub mod v1;
