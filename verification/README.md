# mood_movies

A film recommender driven by the user's mood and the current weather, as four services
that talk over MQTT (weather, films, recommendation, web API).

- `src/` is the verified library (Verus): weather labels and parts of the day, the genre
  multipliers of each mood, film scoring and the recommendation itself, the genre catalogue,
  the shaping of TMDb results, topic routing and the helpers of the web API. Ratings are held
  in thousandths of a point and multipliers in tenths, so every score is an exact integer.
- `app/` runs the services (`mood_movies <weather|recommendation|movies|web>`): MQTT, HTTP,
  JSON and the conversions between floating-point ratings and the library's integers.
- `tests/` exercises the library.
