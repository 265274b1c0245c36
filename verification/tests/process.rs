use std::time::Duration;

use tailf::split_chunks;
use tailf::Options;

fn runtime() -> tokio::runtime::Runtime {
    tokio::runtime::Builder::new_current_thread().enable_all().build().unwrap()
}

fn spawn_tail(args: &[String]) -> std::io::Result<tokio::process::Child> {
    let mut cmd = tokio::process::Command::new("tail");
    cmd.args(args);
    cmd.spawn()
}

#[test]
fn fixed_file_comes_back_whole_then_ends() {
    let rt = runtime();
    rt.block_on(async {
        let path = "/tmp/tailf_test_whole_file.txt";
        let content = b"one\ntwo\nthree\nfour\nfive\n";
        tokio::fs::write(path, content).await.unwrap();

        // Following disabled: the external utility prints the trailing lines
        // (all five here) and exits, closing its output.
        let opts = Options::builder().num_lines(Some(100)).build();
        let args = opts.tail_args(path);
        let out = tokio::process::Command::new("tail").args(&args).output().await.unwrap();
        assert_eq!(out.stdout, content.to_vec());

        // The bounded line reads hand the same stream back in line-sized
        // pieces whose concatenation is the full content.
        let chunks = split_chunks(&out.stdout, opts.max_chunk_size);
        let mut joined: Vec<u8> = Vec::new();
        for c in &chunks {
            assert!(c.len() as u64 <= opts.max_chunk_size);
            joined.extend_from_slice(c);
        }
        assert_eq!(joined, content.to_vec());
        assert_eq!(chunks.len(), 5);
    });
}

#[test]
fn last_three_lines_of_a_ten_line_file() {
    let rt = runtime();
    rt.block_on(async {
        let path = "/tmp/tailf_test_ten_lines.txt";
        let content = b"one\ntwo\nthree\nfour\nfive\nsix\nseven\neight\nnine\nten\n";
        tokio::fs::write(path, content).await.unwrap();

        let opts = Options::builder()
            .num_lines(Some(3))
            .follow(false)
            .max_chunk_size(8192)
            .build();
        let args = opts.tail_args(path);
        assert_eq!(args[0], "-n");
        assert_eq!(args[1], "3");
        assert_eq!(args[2], path);

        let out = tokio::process::Command::new("tail").args(&args).output().await.unwrap();
        let chunks = split_chunks(&out.stdout, opts.max_chunk_size);
        assert_eq!(chunks, vec![b"eight\n".to_vec(), b"nine\n".to_vec(), b"ten\n".to_vec()]);
    });
}

#[test]
fn follow_mode_sees_an_appended_line() {
    let rt = runtime();
    rt.block_on(async {
        let path = "/tmp/tailf_test_follow.txt";
        tokio::fs::write(path, b"").await.unwrap();

        // Run the follow-mode tail under a watchdog that ends it after two
        // seconds, so its captured output can be collected; the appended
        // line must arrive rather than an immediate end of stream.
        let opts = Options::builder().follow(true).build();
        let args = opts.tail_args(path);
        let mut cmd = tokio::process::Command::new("timeout");
        cmd.arg("2").arg("tail").args(&args);
        let pending = tokio::task::spawn(async move { cmd.output().await });

        tokio::time::sleep(Duration::from_millis(300)).await;
        let mut existing = tokio::fs::read(path).await.unwrap();
        existing.extend_from_slice(b"hello\n");
        tokio::fs::write(path, existing).await.unwrap();

        let out = pending.await.unwrap().unwrap();
        assert_eq!(out.stdout, b"hello\n".to_vec());
    });
}

#[test]
fn missing_utility_fails_to_spawn_and_yields_no_handle() {
    let rt = runtime();
    rt.block_on(async {
        let opts = Options::builder().follow(true).build();
        let args = opts.tail_args("/tmp/tailf_test_irrelevant.txt");
        let mut cmd = tokio::process::Command::new("/nonexistent/no-such-tail-utility");
        cmd.args(&args);
        let spawned = cmd.spawn();
        assert!(spawned.is_err());
        assert_eq!(spawned.err().unwrap().kind(), std::io::ErrorKind::NotFound);
    });
}

#[test]
fn killed_process_is_reclaimed_within_a_grace_period() {
    let rt = runtime();
    rt.block_on(async {
        let path = "/tmp/tailf_test_kill.txt";
        tokio::fs::write(path, b"").await.unwrap();

        // A following tail never exits on its own; after the kill request
        // the wait must come back within a bounded grace period.
        let opts = Options::builder().follow(true).build();
        let args = opts.tail_args(path);
        let mut child = spawn_tail(&args).unwrap();
        child.start_kill().unwrap();
        let status = tokio::time::timeout(Duration::from_secs(5), child.wait()).await;
        assert!(status.is_ok());
        assert!(status.unwrap().is_ok());
    });
}
