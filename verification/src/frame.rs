//! Protocol frames as the connection handler reads and writes them.

use vstd::prelude::*;

verus! {

/// One frame of the protocol. A request arrives as an array of frames; a response is a
/// simple string, a bulk value or the null frame.
#[derive(Debug, PartialEq, Eq)]
pub enum RespFrame {
    Simple(String),
    Error(String),
    Integer(u64),
    Bulk(Vec<u8>),
    Null,
    Array(Vec<RespFrame>),
}

/// The mathematical value of a frame.
pub enum RespFrameView {
    Simple(Seq<char>),
    Error(Seq<char>),
    Integer(u64),
    Bulk(Seq<u8>),
    Null,
    Array(Seq<RespFrameView>),
}

impl View for RespFrame {
    type V = RespFrameView;

    open spec fn view(&self) -> RespFrameView
        decreases self,
    {
        match self {
            RespFrame::Simple(text) => RespFrameView::Simple(text@),
            RespFrame::Error(text) => RespFrameView::Error(text@),
            RespFrame::Integer(number) => RespFrameView::Integer(*number),
            RespFrame::Bulk(bytes) => RespFrameView::Bulk(bytes@),
            RespFrame::Null => RespFrameView::Null,
            RespFrame::Array(items) => RespFrameView::Array(
                Seq::new(
                    items@.len(),
                    |i: int|
                        if 0 <= i < items@.len() {
                            items@[i].view()
                        } else {
                            RespFrameView::Null
                        },
                ),
            ),
        }
    }
}

} // verus!
