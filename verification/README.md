imgur_a
=======

Scans imgur for existing albums. It takes a list of album ids, asks for the page of each album, and
appends the data of the albums that have images, a title or a description to a file.

What the scanner decides is a library whose behaviour is stated in contracts and proved by Verus.
The library does no input and output: its state machines say what is to be done next and take what
came of it. The program around it does that, parses the JSON of an album, and computes what takes
floating point: the start-up delay of a worker and the rates in a report.

# Layout

- `src/worker.rs`, `src/producer.rs`, `src/collector.rs`: the state machines of a worker, of the
  producer that hands out the ids, and of the collector that writes the results
- `src/results.rs`: the results file
- `src/proxies.rs`, `src/http.rs`: the proxy list, and the proxies and clients of `reqwest`
- `src/album.rs`: album data in a page, found with `regex`
- `src/counters.rs`: the figures of a run, kept in the counters of `atomic_counter`
- `src/settings.rs`: the speed of a run
- `src/messages.rs`, `src/text.rs`: the lines that are printed, and operations on text
- `src/*_laws.rs`: what holds over a whole run
- `app/`: the program, which opens files, sends requests and sleeps

# Usage

```
imgur_a --input-file <FILE> --results-file <FILE> [--proxy-file <FILE>] [--concurrent <N>]
```

- `--input-file`: the ids, one per line (just the aBcDe id, not a link)
- `--results-file`: where the results go; the file is appended to
- `--proxy-file`: an optional list of http proxies with one entry per line, in the format
  `PROXY_HOST:PROXY_PORT:PROXY_USER:PROXY_PASSWORD`, for example
  `proxy.example.com:1234:username:password123`. For each entry, one worker is spawned.
- `--concurrent`: how many requests to queue per second, 3 by default. The actual rate is slightly
  lower. Without proxies this is limited to 6, unless `--concurrent-unsafe` is given.
