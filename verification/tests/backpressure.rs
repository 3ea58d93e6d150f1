//! Flow control between the decode and encode stages.
//!
//! Per document, decoded pages are handed to the encoder sink through a
//! bounded queue of capacity 3, the sole flow-control mechanism: with a
//! slow consumer, a producer send blocks once three pages are queued, and
//! one drained page lets the producer proceed again.  This drives the
//! library's `FrameSink` through that arrangement — the one the serving
//! binary uses — and checks that every page still comes out as a frame,
//! in order.

use std::io::Cursor;
use std::sync::atomic::{AtomicUsize, Ordering};
use std::sync::Arc;
use ipp_sharing::raster::tiffsink::FrameSink;
use ipp_sharing::raster::{ContentFormat, Page};
use tiff::decoder::{Decoder, DecodingResult};
use tokio::sync::mpsc;
use tokio::time::{sleep, Duration};

fn page(shade: u8) -> Page {
    Page {
        width: 1,
        height: 1,
        dpi_x: 300,
        dpi_y: 300,
        format: ContentFormat::Gray8,
        content: vec![shade],
    }
}

#[test]
fn producer_blocks_at_three_queued_pages_and_resumes_after_a_drain() {
    let rt = tokio::runtime::Builder::new_current_thread()
        .enable_time()
        .build()
        .unwrap();
    rt.block_on(async {
        let (tx, mut rx) = mpsc::channel::<Page>(3);
        let sent = Arc::new(AtomicUsize::new(0));
        let producer_progress = sent.clone();
        let producer = tokio::spawn(async move {
            for shade in 0..5 {
                tx.send(page(shade)).await.unwrap();
                producer_progress.fetch_add(1, Ordering::SeqCst);
            }
        });
        // The consumer is slow: the producer fills the queue and must stop
        // with three pages queued and the fourth send blocked.
        sleep(Duration::from_millis(20)).await;
        assert_eq!(sent.load(Ordering::SeqCst), 3, "the fourth send must block");

        let mut buf = Vec::new();
        let mut sink = FrameSink::open(&mut buf);
        let first = rx.recv().await.unwrap();
        sink.push(&first).unwrap();
        // One drained page unblocks exactly one more send.
        sleep(Duration::from_millis(20)).await;
        assert_eq!(sent.load(Ordering::SeqCst), 4, "one drain frees one send");

        while let Some(p) = rx.recv().await {
            sink.push(&p).unwrap();
        }
        producer.await.unwrap();
        assert!(sink.close());

        // Despite the throttling, the file holds all five pages, in order.
        let mut dec = Decoder::new(Cursor::new(buf)).unwrap();
        let mut shades = Vec::new();
        loop {
            match dec.read_image().unwrap() {
                DecodingResult::U8(pixels) => shades.push(pixels[0]),
                other => panic!("expected 8-bit data, got {:?}", other),
            }
            if !dec.more_images() {
                break;
            }
            dec.next_image().unwrap();
        }
        assert_eq!(shades, vec![0, 1, 2, 3, 4]);
    });
}
