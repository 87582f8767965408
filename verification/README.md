# ytdl_helper

A small front end for yt-dlp. It keeps yt-dlp, ffmpeg and deno under
`~/tools`, fetches whichever of them is missing, and asks the user for a video
URL, a resolution, a browser to take cookies from and a file name before
running yt-dlp.

- `src/` is the verified library (Verus): where the tools live
  (`config`), how a downloaded archive is unpacked (`network`), what each
  answer at the prompts means (`repl`, `utility`) and the text handling they
  share (`text`).
- `app/` is the program around it: environment, terminal, network and files.
- `tests/` runs the library on concrete values.
